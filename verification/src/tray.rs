//! Tray-icon interaction and the main window's visibility / position state.
//!
//! A left-click on the tray icon drives the window through one of two
//! explicit policies. The toggle policy flips visibility and leaves the
//! position alone. The force-reset policy recomputes a corner position from
//! the current display and window widths, shows the window, focuses it and
//! pins it on top, regardless of prior visibility. Other mouse buttons do
//! nothing. Reading the geometry can fail; the position step is then
//! skipped and the window is still shown.

use vstd::prelude::*;

verus! {

/// Horizontal inset between the window's right edge and the display's right edge.
pub const RIGHT_INSET: i32 = 120;

/// Fixed distance from the top of the display under the force-reset policy.
pub const TOP_OFFSET: i32 = 32;

/// The main window's state as the controller tracks it: OS-reported
/// visibility, the always-on-top flag, and the last position it was moved to.
#[derive(Clone, Copy, PartialEq, Eq, Structural, Debug)]
pub struct TrayState {
    pub visible: bool,
    pub always_on_top: bool,
    pub pos_x: i32,
    pub pos_y: i32,
}

/// Which mouse button a tray-icon click carried.
#[derive(Clone, Copy, PartialEq, Eq, Structural, Debug)]
pub enum TrayButton {
    Left,
    Right,
    Middle,
}

/// Display and window widths, as the OS reports them when the query succeeds.
#[derive(Clone, Copy, PartialEq, Eq, Structural, Debug)]
pub struct Geometry {
    pub display_width: u32,
    pub window_width: u32,
}

/// The geometry values the window manager can actually report: both widths
/// fit an `i32`, so the position arithmetic below cannot overflow.
pub open spec fn geometry_fits(g: Geometry) -> bool {
    g.display_width <= i32::MAX && g.window_width as int + RIGHT_INSET as int <= i32::MAX
}

/// Target x-coordinate under the force-reset policy: flush against the
/// display's right edge with the fixed inset.
pub open spec fn reset_x(g: Geometry) -> int {
    g.display_width as int - g.window_width as int - RIGHT_INSET as int
}

/// One left-click under the toggle policy: hide a visible window, show a
/// hidden one. Position and the always-on-top flag are untouched.
pub open spec fn spec_toggle_click(s: TrayState) -> TrayState {
    TrayState { visible: !s.visible, ..s }
}

/// One left-click under the force-reset policy: recompute the corner
/// position when the geometry is known, else keep the old one; in either
/// case show, focus and pin the window.
pub open spec fn spec_force_reset_click(s: TrayState, geom: Option<Geometry>) -> TrayState {
    match geom {
        Some(g) => TrayState {
            visible: true,
            always_on_top: true,
            pos_x: reset_x(g) as i32,
            pos_y: TOP_OFFSET,
        },
        None => TrayState { visible: true, always_on_top: true, ..s },
    }
}

/// Apply the toggle policy to one left-click.
pub fn toggle_click(s: &TrayState) -> (r: TrayState)
    ensures
        r == spec_toggle_click(*s),
{
    TrayState { visible: !s.visible, ..*s }
}

/// Apply the force-reset policy to one left-click. `geom` is `None` when the
/// monitor or window size query failed; the move is then skipped and the
/// window is still shown, focused and pinned.
pub fn force_reset_click(s: &TrayState, geom: Option<Geometry>) -> (r: TrayState)
    requires
        geom matches Some(g) ==> geometry_fits(g),
    ensures
        r == spec_force_reset_click(*s, geom),
        r.visible,
        r.always_on_top,
        geom matches Some(g) ==> r.pos_x == reset_x(g) && r.pos_y == TOP_OFFSET,
        geom is None ==> r.pos_x == s.pos_x && r.pos_y == s.pos_y,
{
    match geom {
        Some(g) => TrayState {
            visible: true,
            always_on_top: true,
            pos_x: g.display_width as i32 - g.window_width as i32 - RIGHT_INSET,
            pos_y: TOP_OFFSET,
        },
        None => TrayState { visible: true, always_on_top: true, ..*s },
    }
}

/// Which of the two click policies the shell was built with. The two are
/// not compatible, so the choice is made once, explicitly, by the host.
#[derive(Clone, Copy, PartialEq, Eq, Structural, Debug)]
pub enum ClickPolicy {
    Toggle,
    ForceReset,
}

/// One tray-icon click of any button. Only a left-click acts, under the
/// chosen policy; every other button leaves the state untouched.
pub fn tray_click(policy: ClickPolicy, s: &TrayState, button: TrayButton, geom: Option<Geometry>) -> (r:
    TrayState)
    requires
        policy == ClickPolicy::ForceReset && button == TrayButton::Left ==> (geom matches Some(g)
            ==> geometry_fits(g)),
    ensures
        button != TrayButton::Left ==> r == *s,
        button == TrayButton::Left && policy == ClickPolicy::Toggle ==> r == spec_toggle_click(*s),
        button == TrayButton::Left && policy == ClickPolicy::ForceReset ==> r
            == spec_force_reset_click(*s, geom),
{
    match button {
        TrayButton::Left => match policy {
            ClickPolicy::Toggle => toggle_click(s),
            ClickPolicy::ForceReset => force_reset_click(s, geom),
        },
        _ => *s,
    }
}

/// A choice from the tray icon's context menu, which holds a single "quit"
/// entry.
#[derive(Clone, Copy, PartialEq, Eq, Structural, Debug)]
pub enum MenuChoice {
    Quit,
    Other,
}

/// What a menu choice asks of the process: "quit" terminates it immediately
/// with a success exit code, anything else does nothing.
pub fn menu_exit_code(c: MenuChoice) -> (r: Option<i32>)
    ensures
        c == MenuChoice::Quit ==> r == Some(0i32),
        c != MenuChoice::Quit ==> r is None,
{
    match c {
        MenuChoice::Quit => Some(0),
        MenuChoice::Other => None,
    }
}

/// Two toggle-policy clicks in a row bring the visibility back to where it
/// started, whatever the rest of the state holds.
pub proof fn lemma_toggle_click_idempotent_pairs(s: TrayState)
    ensures
        spec_toggle_click(spec_toggle_click(s)).visible == s.visible,
        spec_toggle_click(spec_toggle_click(s)) == s,
{
}

} // verus!
