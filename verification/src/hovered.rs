//! Plain hover tracking for widgets that only need to know whether the
//! pointer is over them, with no delay machinery.

use vstd::prelude::*;

verus! {

/// The events a hover-tracking region sees: the pointer entering or leaving
/// it, or a message bubbling up from the content inside it.
#[derive(Debug, Clone)]
pub enum Event<Message> {
    Hovered,
    Exited,
    Message(Message),
}

/// Whether the pointer is currently over the region.
#[derive(Debug, Clone, Copy, PartialEq, Eq, Structural)]
pub struct State {
    pub hovered: bool,
}

impl Default for State {
    fn default() -> (r: Self)
        ensures
            r == (State { hovered: false }),
    {
        State { hovered: false }
    }
}

/// Reacts to one event: enter and exit update the hover state and are
/// consumed; a content message passes through unchanged.
pub fn hovered_update<Message>(state: &mut State, event: Event<Message>) -> (r: Option<Message>)
    ensures
        (event matches Event::Hovered ==> (*final(state) == (State { hovered: true }) && r
            is None)),
        (event matches Event::Exited ==> (*final(state) == (State { hovered: false }) && r
            is None)),
        (event matches Event::Message(m) ==> (*final(state) == *old(state) && r == Some(m))),
{
    match event {
        Event::Hovered => {
            state.hovered = true;
            None
        },
        Event::Exited => {
            state.hovered = false;
            None
        },
        Event::Message(message) => Some(message),
    }
}

} // verus!
