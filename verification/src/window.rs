use vstd::prelude::*;

verus! {

/// What the application is asked to do by its window.
#[derive(Debug, Clone, Copy, PartialEq, Eq, Structural)]
pub enum Action {
    Resized(u32, u32),
    Closed,
}

/// The keys that the window tells apart.
#[derive(Debug, Clone, Copy, PartialEq, Eq, Structural)]
pub enum Key {
    Q,
    Other,
}

/// What happened to a key.
#[derive(Debug, Clone, Copy, PartialEq, Eq, Structural)]
pub enum KeyAction {
    Release,
    Press,
    Repeat,
}

/// An event of the window system, as far as the window reads it.
#[derive(Debug, Clone, Copy, PartialEq, Eq, Structural)]
pub enum WindowEvent {
    Close,
    Key(Key, KeyAction),
    Size(u32, u32),
    Other,
}

/// The action that one event asks for: closing the window or releasing Q
/// closes, a new size resizes, anything else asks for nothing.
pub open spec fn action_of(event: WindowEvent) -> Option<Action> {
    match event {
        WindowEvent::Close => Some(Action::Closed),
        WindowEvent::Key(Key::Q, KeyAction::Release) => Some(Action::Closed),
        WindowEvent::Size(w, h) => Some(Action::Resized(w, h)),
        _ => None,
    }
}

/// The action of the first event that asks for one.
pub open spec fn first_action(events: Seq<WindowEvent>) -> Option<Action>
    decreases events.len(),
{
    if events.len() == 0 {
        None
    } else if action_of(events[0]) is Some {
        action_of(events[0])
    } else {
        first_action(events.drop_first())
    }
}

/// No event before position `k` asks for an action.
pub open spec fn quiet_before(events: Seq<WindowEvent>, k: int) -> bool {
    forall|i: int| 0 <= i < k ==> action_of(#[trigger] events[i]) is None
}

/// Events that ask for nothing can be skipped.
pub proof fn lemma_quiet_events_skipped(events: Seq<WindowEvent>, k: int)
    requires
        0 <= k <= events.len(),
        quiet_before(events, k),
    ensures
        first_action(events) == first_action(events.skip(k)),
    decreases k,
{
    if k > 0 {
        let rest = events.drop_first();
        assert forall|i: int| 0 <= i < k - 1 implies action_of(#[trigger] rest[i]) is None by {
            assert(rest[i] == events[i + 1]);
        }
        lemma_quiet_events_skipped(rest, k - 1);
        assert(rest.skip(k - 1) =~= events.skip(k));
        assert(action_of(events[0]) is None);
    } else {
        assert(events.skip(0) =~= events);
    }
}

/// The window of the application, by its size.
#[derive(Debug, Clone, Copy, PartialEq, Eq, Structural)]
pub struct Window {
    pub width: u32,
    pub height: u32,
}

impl Window {
    pub fn new(width: u32, height: u32) -> (window: Window)
        ensures
            window == (Window { width, height }),
    {
        Window { width, height }
    }

    /// The action that one event asks for.
    pub fn action_for(event: WindowEvent) -> (action: Option<Action>)
        ensures
            action == action_of(event),
    {
        match event {
            WindowEvent::Close => Some(Action::Closed),
            WindowEvent::Key(Key::Q, KeyAction::Release) => Some(Action::Closed),
            WindowEvent::Size(w, h) => Some(Action::Resized(w, h)),
            _ => None,
        }
    }

    /// Reads the events that have come in, oldest first, and returns the
    /// action of the first one that asks for any. The events behind that
    /// one are not read.
    pub fn handle_events(&mut self, events: &Vec<WindowEvent>) -> (action: Option<Action>)
        ensures
            action == first_action(events@),
            *final(self) == *old(self),
    {
        let mut k: usize = 0;
        while k < events.len()
            invariant
                0 <= k <= events.len(),
                quiet_before(events@, k as int),
            decreases events.len() - k,
        {
            let action = Self::action_for(events[k]);
            if action.is_some() {
                proof {
                    lemma_quiet_events_skipped(events@, k as int);
                    assert(events@.skip(k as int)[0] == events@[k as int]);
                }
                return action;
            }
            k += 1;
        }
        proof {
            lemma_quiet_events_skipped(events@, events@.len() as int);
            assert(events@.skip(events@.len() as int).len() == 0);
        }
        None
    }
}

} // verus!
