//! Whether an event loop goes on or stops.
use vstd::prelude::*;

verus! {

/// Action to perform in an event loop (break or continue).
#[derive(Debug, Clone, Copy, PartialEq, Eq, Structural)]
pub enum EventLoopAction {
    /// Continue with the loop.
    Continue,
    /// Stop executing.
    Stop,
}

/// The action that an operation's outcome asks for: go on after a success,
/// stop after a failure.
pub open spec fn action_of<E>(value: Result<(), E>) -> EventLoopAction {
    match value {
        Ok(()) => EventLoopAction::Continue,
        Err(_) => EventLoopAction::Stop,
    }
}

impl<E> From<Result<(), E>> for EventLoopAction {
    fn from(value: Result<(), E>) -> (action: Self) {
        match value {
            Ok(()) => EventLoopAction::Continue,
            Err(_) => EventLoopAction::Stop,
        }
    }
}

impl<E> vstd::std_specs::convert::FromSpecImpl<Result<(), E>> for EventLoopAction {
    open spec fn obeys_from_spec() -> bool {
        true
    }

    open spec fn from_spec(v: Result<(), E>) -> Self {
        action_of(v)
    }
}

impl EventLoopAction {
    /// Returns true if the action is [Continue][EventLoopAction::Continue].
    pub fn is_continue(self) -> (r: bool)
        ensures
            r <==> self == EventLoopAction::Continue,
    {
        self == EventLoopAction::Continue
    }

    /// Returns true if the action is [Stop][EventLoopAction::Stop].
    pub fn is_stop(self) -> (r: bool)
        ensures
            r <==> self == EventLoopAction::Stop,
    {
        self == EventLoopAction::Stop
    }
}

/// Every action is exactly one of the two: a loop either goes on or stops.
pub proof fn lemma_continue_xor_stop(action: EventLoopAction)
    ensures
        (action == EventLoopAction::Continue) != (action == EventLoopAction::Stop),
{
}

} // verus!
