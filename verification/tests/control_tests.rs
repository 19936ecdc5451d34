use media_shell::shortcut::Command;
use media_shell::shortcut::Dispatcher;
use media_shell::shortcut::Event;
use media_shell::shortcut::EventBridge;
use media_shell::shortcut::on_trigger;
use media_shell::tray::ClickPolicy;
use media_shell::tray::Geometry;
use media_shell::tray::MenuChoice;
use media_shell::tray::TrayButton;
use media_shell::tray::TrayState;
use media_shell::tray::force_reset_click;
use media_shell::tray::menu_exit_code;
use media_shell::tray::toggle_click;
use media_shell::tray::tray_click;

fn hidden_at(x: i32, y: i32) -> TrayState {
    TrayState { visible: false, always_on_top: false, pos_x: x, pos_y: y }
}

#[test]
fn toggle_click_pair_restores_visibility() {
    let start = TrayState { visible: true, always_on_top: false, pos_x: 5, pos_y: 6 };
    let once = toggle_click(&start);
    assert!(!once.visible);
    let twice = toggle_click(&once);
    assert_eq!(twice.visible, start.visible);
    assert_eq!(twice, start);

    let start_hidden = hidden_at(5, 6);
    let twice_hidden = toggle_click(&toggle_click(&start_hidden));
    assert_eq!(twice_hidden.visible, start_hidden.visible);
}

#[test]
fn force_reset_click_snaps_to_the_corner() {
    let s = hidden_at(0, 0);
    let g = Geometry { display_width: 1920, window_width: 800 };
    let r = force_reset_click(&s, Some(g));
    assert_eq!(r.pos_x, 1920 - 800 - 120);
    assert_eq!(r.pos_y, 32);
    assert!(r.visible);
    assert!(r.always_on_top);
}

#[test]
fn force_reset_click_ignores_prior_visibility() {
    let shown = TrayState { visible: true, always_on_top: true, pos_x: 1, pos_y: 2 };
    let g = Geometry { display_width: 2560, window_width: 400 };
    let r = force_reset_click(&shown, Some(g));
    assert_eq!(r.pos_x, 2560 - 400 - 120);
    assert_eq!(r.pos_y, 32);
    assert!(r.visible);
}

#[test]
fn force_reset_click_without_geometry_still_shows() {
    let s = hidden_at(77, 88);
    let r = force_reset_click(&s, None);
    assert!(r.visible);
    assert!(r.always_on_top);
    assert_eq!(r.pos_x, 77);
    assert_eq!(r.pos_y, 88);
}

#[test]
fn non_left_buttons_produce_no_behavior() {
    let s = hidden_at(3, 4);
    let g = Some(Geometry { display_width: 1920, window_width: 800 });
    assert_eq!(tray_click(ClickPolicy::Toggle, &s, TrayButton::Right, None), s);
    assert_eq!(tray_click(ClickPolicy::ForceReset, &s, TrayButton::Right, g), s);
    assert_eq!(tray_click(ClickPolicy::ForceReset, &s, TrayButton::Middle, g), s);
}

#[test]
fn left_click_follows_the_chosen_policy() {
    let s = hidden_at(3, 4);
    let toggled = tray_click(ClickPolicy::Toggle, &s, TrayButton::Left, None);
    assert!(toggled.visible);
    assert_eq!(toggled.pos_x, 3);

    let g = Some(Geometry { display_width: 1000, window_width: 500 });
    let snapped = tray_click(ClickPolicy::ForceReset, &s, TrayButton::Left, g);
    assert_eq!(snapped.pos_x, 1000 - 500 - 120);
    assert_eq!(snapped.pos_y, 32);
}

#[test]
fn quit_menu_entry_exits_with_success() {
    assert_eq!(menu_exit_code(MenuChoice::Quit), Some(0));
    assert_eq!(menu_exit_code(MenuChoice::Other), None);
}

#[test]
fn commands_map_to_their_payloads_and_chords() {
    assert_eq!(Command::PlayPause.payload(), "play-pause");
    assert_eq!(Command::Next.payload(), "next");
    assert_eq!(Command::Prev.payload(), "prev");
    assert_eq!(Command::PlayPause.chord(), "CommandOrControl+Shift+Space");
    assert_eq!(Command::Next.chord(), "CommandOrControl+Shift+Right");
    assert_eq!(Command::Prev.chord(), "CommandOrControl+Shift+Left");
}

#[test]
fn trigger_of_registered_next_emits_exactly_one_event() {
    let d = Dispatcher::setup(true, true, true);
    let mut bridge = EventBridge::new();
    on_trigger(&d, &mut bridge, Command::Next);
    assert_eq!(bridge.events.len(), 1);
    assert_eq!(bridge.events[0].name, "global-shortcut");
    assert_eq!(bridge.events[0].payload, "next");
}

#[test]
fn trigger_of_unregistered_combination_emits_nothing() {
    let d = Dispatcher::setup(true, false, true);
    let mut bridge = EventBridge::new();
    on_trigger(&d, &mut bridge, Command::Next);
    assert_eq!(bridge.events.len(), 0);
}

#[test]
fn one_failed_registration_does_not_block_the_other_two() {
    // The middle chord is taken to have failed to parse; the outcome of each
    // registration is independent of the others.
    let d = Dispatcher::setup(true, false, true);
    assert!(d.registered(Command::PlayPause));
    assert!(!d.registered(Command::Next));
    assert!(d.registered(Command::Prev));

    let mut bridge = EventBridge::new();
    on_trigger(&d, &mut bridge, Command::PlayPause);
    on_trigger(&d, &mut bridge, Command::Next);
    on_trigger(&d, &mut bridge, Command::Prev);
    assert_eq!(bridge.events.len(), 2);
    assert_eq!(bridge.events[0].payload, "play-pause");
    assert_eq!(bridge.events[1].payload, "prev");
}

#[test]
fn bridge_keeps_emission_order() {
    let mut bridge = EventBridge::new();
    bridge.emit(Event { name: "global-shortcut", payload: "next" });
    bridge.emit(Event { name: "global-shortcut", payload: "prev" });
    bridge.emit(Event { name: "global-shortcut", payload: "play-pause" });
    let payloads: Vec<&str> = bridge.events.iter().map(|e| e.payload).collect();
    assert_eq!(payloads, vec!["next", "prev", "play-pause"]);
}

#[test]
fn repeated_triggers_emit_one_event_each() {
    let d = Dispatcher::setup(false, true, false);
    let mut bridge = EventBridge::new();
    on_trigger(&d, &mut bridge, Command::Next);
    on_trigger(&d, &mut bridge, Command::Next);
    on_trigger(&d, &mut bridge, Command::Next);
    assert_eq!(bridge.events.len(), 3);
    for e in &bridge.events {
        assert_eq!(e.name, "global-shortcut");
        assert_eq!(e.payload, "next");
    }
}
