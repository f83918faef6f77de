//! Traps, and how a failure of the host engine becomes one.

use vstd::prelude::*;

verus! {

/// A structured failure of a call. `P` is the type of the payload that user
/// code may raise a trap with; nothing here looks into it.
#[derive(Clone, Debug, PartialEq, Eq)]
pub enum Trap<P> {
    /// The guest function, or the engine under it, failed while running.
    /// `message` is the engine's account of the failure.
    Execution { message: String },
    /// Raised on purpose, with a payload.
    User(P),
}

impl<P> Trap<P> {
    /// The trap that carries `payload`.
    pub fn user(payload: P) -> (trap: Trap<P>)
        ensures
            trap == Trap::User(payload),
    {
        Trap::User(payload)
    }

    /// Whether the trap was raised on purpose.
    pub fn is_user(&self) -> (yes: bool)
        ensures
            yes == (*self is User),
    {
        match self {
            Trap::User(_) => true,
            Trap::Execution { .. } => false,
        }
    }

    /// The engine's account of the failure, where the trap has one.
    pub fn message(&self) -> (text: Option<&String>)
        ensures
            text == match *self {
                Trap::Execution { message } => Some(&message),
                Trap::User(_) => None::<&String>,
            },
    {
        match self {
            Trap::Execution { message } => Some(message),
            Trap::User(_) => None,
        }
    }
}

/// A failure object of the host engine, as plain data: the text that the
/// engine renders it to and, where the object wraps a trap that was thrown
/// into the engine earlier, that trap.
#[derive(Clone, Debug, PartialEq, Eq)]
pub struct HostError<P> {
    pub message: String,
    pub wrapped: Option<Trap<P>>,
}

impl<P> HostError<P> {
    /// The trap that the failure stands for: the wrapped trap itself where
    /// there is one, else an execution trap with the engine's text.
    pub open spec fn trap_spec(self) -> Trap<P> {
        match self.wrapped {
            Some(trap) => trap,
            None => Trap::Execution { message: self.message },
        }
    }

    /// Turns the failure into a trap. A trap that went through the
    /// engine comes out as it went in, not wrapped a second time.
    pub fn into_trap(self) -> (trap: Trap<P>)
        ensures
            trap == self.trap_spec(),
    {
        match self.wrapped {
            Some(trap) => trap,
            None => Trap::Execution { message: self.message },
        }
    }
}

/// What a host call has come to once a failure, if any, is turned into a
/// trap.
pub open spec fn settle_spec<V, P>(returned: Result<V, HostError<P>>) -> Result<V, Trap<P>> {
    match returned {
        Ok(value) => Ok(value),
        Err(error) => Err(error.trap_spec()),
    }
}

/// Keeps the value of a host call that succeeded, and turns the failure of
/// one that did not into a trap.
pub fn settle<V, P>(returned: Result<V, HostError<P>>) -> (outcome: Result<V, Trap<P>>)
    ensures
        outcome == settle_spec(returned),
{
    match returned {
        Ok(value) => Ok(value),
        Err(error) => Err(error.into_trap()),
    }
}

} // verus!
