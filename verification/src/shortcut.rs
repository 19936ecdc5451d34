//! Global-shortcut registration and dispatch onto the event bridge.
//!
//! At startup the process tries to register three fixed key combinations
//! with the OS. Parsing or registering each one can fail; a failure is
//! skipped and the other two are still registered. Once a combination is
//! registered it stays registered for the process lifetime. When a
//! registered combination fires, exactly one `global-shortcut` event with
//! the matching payload goes out on the bridge; an unregistered combination
//! produces nothing.

use vstd::prelude::*;

verus! {

/// The logical command a key combination stands for.
#[derive(Clone, Copy, PartialEq, Eq, Structural, Debug)]
pub enum Command {
    PlayPause,
    Next,
    Prev,
}

/// The event-bridge payload for each command.
pub open spec fn spec_payload(c: Command) -> Seq<char> {
    match c {
        Command::PlayPause => "play-pause"@,
        Command::Next => "next"@,
        Command::Prev => "prev"@,
    }
}

/// The name every bridge event carries.
pub open spec fn spec_event_name() -> Seq<char> {
    "global-shortcut"@
}

/// The key-chord string each command is bound to.
pub open spec fn spec_chord(c: Command) -> Seq<char> {
    match c {
        Command::PlayPause => "CommandOrControl+Shift+Space"@,
        Command::Next => "CommandOrControl+Shift+Right"@,
        Command::Prev => "CommandOrControl+Shift+Left"@,
    }
}

impl Command {
    /// The string payload emitted on the bridge for this command.
    pub fn payload(&self) -> (r: &'static str)
        ensures
            r@ == spec_payload(*self),
    {
        match self {
            Command::PlayPause => "play-pause",
            Command::Next => "next",
            Command::Prev => "prev",
        }
    }

    /// The platform key-chord string this command is bound to.
    pub fn chord(&self) -> (r: &'static str)
        ensures
            r@ == spec_chord(*self),
    {
        match self {
            Command::PlayPause => "CommandOrControl+Shift+Space",
            Command::Next => "CommandOrControl+Shift+Right",
            Command::Prev => "CommandOrControl+Shift+Left",
        }
    }
}

/// One event on the bridge: a name and a string payload.
pub struct Event {
    pub name: &'static str,
    pub payload: &'static str,
}

impl Event {
    /// The event that announces `c` to the front end.
    pub open spec fn is_for(&self, c: Command) -> bool {
        self.name@ == spec_event_name() && self.payload@ == spec_payload(c)
    }
}

/// Which of the three fixed bindings are registered with the OS. Each starts
/// unregistered; setup moves the ones whose chord parsed and registered to
/// registered, and nothing ever moves one back.
#[derive(Clone, Copy, PartialEq, Eq, Structural, Debug)]
pub struct Dispatcher {
    pub play_pause_registered: bool,
    pub next_registered: bool,
    pub prev_registered: bool,
}

impl Dispatcher {
    /// Whether the binding for `c` is registered.
    pub open spec fn spec_registered(&self, c: Command) -> bool {
        match c {
            Command::PlayPause => self.play_pause_registered,
            Command::Next => self.next_registered,
            Command::Prev => self.prev_registered,
        }
    }

    /// Build the dispatcher from the outcome of parsing and registering each
    /// chord with the OS. The three outcomes are independent: a failed one
    /// leaves only its own binding unregistered and blocks nothing else.
    pub fn setup(play_pause_ok: bool, next_ok: bool, prev_ok: bool) -> (d: Dispatcher)
        ensures
            d.spec_registered(Command::PlayPause) == play_pause_ok,
            d.spec_registered(Command::Next) == next_ok,
            d.spec_registered(Command::Prev) == prev_ok,
    {
        Dispatcher {
            play_pause_registered: play_pause_ok,
            next_registered: next_ok,
            prev_registered: prev_ok,
        }
    }

    /// Whether the binding for `c` is registered.
    pub fn registered(&self, c: Command) -> (r: bool)
        ensures
            r == self.spec_registered(c),
    {
        match c {
            Command::PlayPause => self.play_pause_registered,
            Command::Next => self.next_registered,
            Command::Prev => self.prev_registered,
        }
    }
}

/// The outbound bridge: a fire-and-forget channel whose delivered events,
/// seen from this side, form the sequence in which they were emitted.
pub struct EventBridge {
    pub events: Vec<Event>,
}

impl EventBridge {
    /// A bridge on which nothing has been emitted yet.
    pub fn new() -> (b: EventBridge)
        ensures
            b.events@.len() == 0,
    {
        EventBridge { events: Vec::new() }
    }

    /// Emit one event. The bridge keeps the order of emissions: the new
    /// sequence is the old one with `e` appended.
    pub fn emit(&mut self, e: Event)
        ensures
            final(self).events@ == old(self).events@.push(e),
    {
        self.events.push(e);
    }
}

/// One physical trigger of the combination bound to `c`. If that binding is
/// registered, exactly one event with the command's payload is emitted on
/// the bridge; if it is not (or the trigger belongs to no binding of ours,
/// which the caller maps to an unregistered command), nothing is emitted.
pub fn on_trigger(d: &Dispatcher, bridge: &mut EventBridge, c: Command)
    ensures
        d.spec_registered(c) ==> final(bridge).events@.len() == old(bridge).events@.len() + 1
            && final(bridge).events@ == old(bridge).events@.push(
            final(bridge).events@.last(),
        ) && final(bridge).events@.last().is_for(c),
        !d.spec_registered(c) ==> final(bridge).events@ == old(bridge).events@,
{
    if d.registered(c) {
        let e = Event { name: "global-shortcut", payload: c.payload() };
        bridge.emit(e);
    }
}

} // verus!
