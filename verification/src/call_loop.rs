//! The reentrant call loop: one logical call that may enter the host engine
//! more than once.
//!
//! Entering the engine and running a callback are not done here. This module
//! decides: given where the call stands and what has just come back, it says
//! where the call stands next, and with it what is to be done next. Whoever
//! drives the call records the store's pointer while the state is
//! [`CallState::Publishing`], invokes the callable while it is
//! [`CallState::Calling`], runs the callback while it is
//! [`CallState::Notifying`], and stops at [`CallState::Done`].

use vstd::prelude::*;
use crate::host::HostValue;
use crate::store::Store;
use crate::trap::{settle, settle_spec, HostError, Trap};

verus! {

/// What a callback asks for after a host call has returned.
#[derive(Clone, Debug, PartialEq, Eq)]
pub enum OnCalledAction<P> {
    /// Invoke the callable once more, with the same arguments.
    InvokeAgain,
    /// Take what the host call gave as the result of the whole call.
    Finish,
    /// Give the call up and raise a trap with this payload.
    Trap(P),
}

/// The name of the engine global under which the pointer of the active
/// store is recorded before the callable is invoked. Guest-side code reads
/// it to find the store of the call that it runs in.
pub const STORE_POINTER_GLOBAL: &'static str = "__store_ptr";

/// Where a call stands. `C` is the type of a callback, `P` that of a trap's
/// payload.
///
/// The marshalled arguments travel with the state until the call is over,
/// so that every invocation is handed the same ones.
#[derive(Debug, PartialEq, Eq)]
pub enum CallState<C, P> {
    /// The pointer of the store, as the number `value`, is to be recorded in
    /// the engine's global object under `name`, over whatever an earlier
    /// call left there.
    Publishing { name: &'static str, value: HostValue, arguments: Vec<HostValue> },
    /// The callable is to be invoked with `arguments`, against `receiver`.
    /// An exported function is no method: the receiver is always the
    /// undefined value.
    Calling { receiver: HostValue, arguments: Vec<HostValue> },
    /// The callable has returned and a callback was waiting in the store. It
    /// has been taken out and is to be run with the store; `returned` is
    /// what the callable gave.
    Notifying {
        callback: C,
        returned: Result<HostValue, HostError<P>>,
        arguments: Vec<HostValue>,
    },
    /// The call is over, with the host's value or with a trap.
    Done(Result<HostValue, Trap<P>>),
}

impl<C, P> CallState<C, P> {
    /// The state after the callable has returned, given what was waiting in
    /// the store at that moment.
    pub open spec fn returned_spec(
        pending: Option<C>,
        arguments: Vec<HostValue>,
        returned: Result<HostValue, HostError<P>>,
    ) -> CallState<C, P> {
        match pending {
            None => CallState::Done(settle_spec(returned)),
            Some(callback) => CallState::Notifying { callback, returned, arguments },
        }
    }

    /// The state after the callback has answered. Only `InvokeAgain` leads
    /// back into the engine, and then with the arguments of the invocation
    /// before. A trap that the callback asks for, and a failure of the
    /// callback itself, both end the call with a trap that carries the
    /// payload; what the callable had returned is dropped.
    pub open spec fn answered_spec(
        arguments: Vec<HostValue>,
        returned: Result<HostValue, HostError<P>>,
        answer: Result<OnCalledAction<P>, P>,
    ) -> CallState<C, P> {
        match answer {
            Ok(OnCalledAction::InvokeAgain) => CallState::Calling {
                receiver: HostValue::Undefined,
                arguments,
            },
            Ok(OnCalledAction::Finish) => CallState::Done(settle_spec(returned)),
            Ok(OnCalledAction::Trap(payload)) => CallState::Done(Err(Trap::User(payload))),
            Err(payload) => CallState::Done(Err(Trap::User(payload))),
        }
    }

    /// The state in which every call begins: before anything is invoked,
    /// the pointer of `store` is made known to the engine. It is handed over
    /// as a host integer: the pointer itself wherever it is below 2^63,
    /// which is every address of today's machines, and else the 64-bit
    /// integer with the same bits.
    pub fn start(store: &Store<C>, arguments: Vec<HostValue>) -> (state: CallState<C, P>)
        ensures
            state == (CallState::<C, P>::Publishing {
                name: STORE_POINTER_GLOBAL,
                value: HostValue::Integer(store.raw_spec() as i64),
                arguments,
            }),
            store.raw_spec() <= i64::MAX ==> (state matches CallState::Publishing {
                value: HostValue::Integer(number),
                ..
            } && number == store.raw_spec()),
    {
        let raw: usize = store.as_raw();
        let number: i64 = #[verifier::truncate] (raw as i64);
        CallState::Publishing {
            name: STORE_POINTER_GLOBAL,
            value: HostValue::Integer(number),
            arguments,
        }
    }

    /// Whether the call is over.
    pub fn is_done(&self) -> (yes: bool)
        ensures
            yes == (*self is Done),
    {
        match self {
            CallState::Done(_) => true,
            _ => false,
        }
    }

    /// The step out of `Publishing`: the pointer has been recorded, and
    /// the callable is invoked for the first time.
    pub fn published(arguments: Vec<HostValue>) -> (state: CallState<C, P>)
        ensures
            state == (CallState::<C, P>::Calling { receiver: HostValue::Undefined, arguments }),
    {
        CallState::Calling { receiver: HostValue::Undefined, arguments }
    }

    /// The step out of `Calling`: the callable, invoked with `arguments`,
    /// has returned `returned`, its value or its failure. The store's slot
    /// is read and emptied. Where it was empty the call is over, and a
    /// failure becomes a trap. Where it held a callback, that callback is to
    /// be run next.
    pub fn returned(
        store: &mut Store<C>,
        arguments: Vec<HostValue>,
        returned: Result<HostValue, HostError<P>>,
    ) -> (state: CallState<C, P>)
        ensures
            state == Self::returned_spec(old(store).pending(), arguments, returned),
            final(store).pending() is None,
            final(store).raw_spec() == old(store).raw_spec(),
    {
        match store.take_on_called() {
            None => CallState::Done(settle(returned)),
            Some(callback) => CallState::Notifying { callback, returned, arguments },
        }
    }

    /// The step out of `Notifying`: the callback has answered `answer`;
    /// `returned` is what the callable had given, and `arguments` what it
    /// had been invoked with.
    pub fn answered(
        arguments: Vec<HostValue>,
        returned: Result<HostValue, HostError<P>>,
        answer: Result<OnCalledAction<P>, P>,
    ) -> (state: CallState<C, P>)
        ensures
            state == Self::answered_spec(arguments, returned, answer),
    {
        match answer {
            Ok(OnCalledAction::InvokeAgain) => CallState::Calling {
                receiver: HostValue::Undefined,
                arguments,
            },
            Ok(OnCalledAction::Finish) => CallState::Done(settle(returned)),
            Ok(OnCalledAction::Trap(payload)) => CallState::Done(Err(Trap::user(payload))),
            Err(payload) => CallState::Done(Err(Trap::user(payload))),
        }
    }
}

/// One entry into the engine as seen from outside: what the callable
/// returned, and what the callback answered if one was waiting.
pub struct Round<P> {
    pub returned: Result<HostValue, HostError<P>>,
    pub on_called: Option<Result<OnCalledAction<P>, P>>,
}

/// How a sequence of rounds went: how often the callable was invoked, and
/// what the call came to, if it came to an end.
pub struct Run<P> {
    pub invocations: nat,
    pub outcome: Option<Result<HostValue, Trap<P>>>,
}

/// The state that one round leaves the call in: the two steps out of
/// `Calling` and out of `Notifying`, one after the other.
pub open spec fn round_spec<P>(arguments: Vec<HostValue>, round: Round<P>) -> CallState<(), P> {
    match round.on_called {
        None => CallState::<(), P>::returned_spec(None, arguments, round.returned),
        Some(answer) => CallState::<(), P>::answered_spec(arguments, round.returned, answer),
    }
}

/// The call that meets `rounds` in this order. The callable is invoked for
/// the first round, and for each further round only as long as the rounds
/// before it asked for it; rounds after the end of the call are not reached.
pub open spec fn run_spec<P>(arguments: Vec<HostValue>, rounds: Seq<Round<P>>) -> Run<P>
    decreases rounds.len(),
{
    if rounds.len() == 0 {
        Run { invocations: 0, outcome: None }
    } else {
        match round_spec(arguments, rounds[0]) {
            CallState::Done(outcome) => Run { invocations: 1, outcome: Some(outcome) },
            _ => {
                let rest = run_spec(arguments, rounds.drop_first());
                Run { invocations: rest.invocations + 1, outcome: rest.outcome }
            },
        }
    }
}

/// A round is the two steps in a row. A callback that was waiting is taken
/// out of the store and is the next thing to run; where the step after it
/// leads depends on its answer, not on which callback it was.
pub proof fn lemma_round_is_two_steps<C, P>(
    callback: C,
    arguments: Vec<HostValue>,
    returned: Result<HostValue, HostError<P>>,
    answer: Result<OnCalledAction<P>, P>,
)
    ensures
        CallState::<C, P>::returned_spec(Some(callback), arguments, returned) == (
            CallState::Notifying { callback, returned, arguments }
        ),
        match CallState::<C, P>::answered_spec(arguments, returned, answer) {
            CallState::Calling { receiver, arguments: again } => round_spec(
                arguments,
                Round { returned, on_called: Some(answer) },
            ) == (CallState::<(), P>::Calling { receiver, arguments: again }),
            CallState::Done(outcome) => round_spec(
                arguments,
                Round { returned, on_called: Some(answer) },
            ) == CallState::<(), P>::Done(outcome),
            _ => false,
        },
{
}

/// The engine is entered again after a round if and only if a callback was
/// waiting and answered `InvokeAgain`, and then it is entered with the same
/// arguments and the undefined receiver. A failure of the guest alone never
/// repeats the call.
pub proof fn lemma_only_invoke_again_repeats<P>(arguments: Vec<HostValue>, round: Round<P>)
    ensures
        round_spec(arguments, round) is Calling <==> round.on_called == Some(
            Ok::<OnCalledAction<P>, P>(OnCalledAction::InvokeAgain),
        ),
        round_spec(arguments, round) is Calling ==> round_spec(arguments, round) == (
            CallState::<(), P>::Calling { receiver: HostValue::Undefined, arguments }
        ),
        round_spec(arguments, round) is Calling || round_spec(arguments, round) is Done,
{
}

/// A guest function that fails, with no callback waiting, ends the call
/// after one invocation with the trap of that failure: the trap that the
/// failure wraps if it wraps one, else a trap with the failure's text.
pub proof fn lemma_fault_propagates<P>(
    arguments: Vec<HostValue>,
    error: HostError<P>,
    later: Seq<Round<P>>,
)
    ensures
        run_spec(arguments, seq![Round { returned: Err(error), on_called: None }] + later) == (
            Run { invocations: 1, outcome: Some(Err(error.trap_spec())) }
        ),
        error.wrapped is None ==> error.trap_spec() == (Trap::<P>::Execution {
            message: error.message,
        }),
        error.wrapped matches Some(trap) ==> error.trap_spec() == trap,
{
}

/// A call whose first `resumes` rounds all answer `InvokeAgain`, and whose
/// next round does not, invokes the callable `resumes + 1` times and ends
/// as that next round ends.
pub proof fn lemma_run_counts_resumes<P>(
    arguments: Vec<HostValue>,
    rounds: Seq<Round<P>>,
    resumes: nat,
)
    requires
        resumes < rounds.len(),
        forall|i: int|
            0 <= i < resumes ==> round_spec(arguments, #[trigger] rounds[i]) is Calling,
        round_spec(arguments, rounds[resumes as int]) is Done,
    ensures
        run_spec(arguments, rounds) == (Run {
            invocations: resumes + 1,
            outcome: Some(round_spec(arguments, rounds[resumes as int])->Done_0),
        }),
    decreases resumes,
{
    if resumes > 0 {
        lemma_run_counts_resumes(arguments, rounds.drop_first(), (resumes - 1) as nat);
    }
}

/// A callback that answers `InvokeAgain` once and `Finish` the next time
/// has the callable invoked exactly twice, and the call ends with what the
/// second invocation gave.
pub proof fn lemma_resume_once<P>(
    arguments: Vec<HostValue>,
    first: Result<HostValue, HostError<P>>,
    second: Result<HostValue, HostError<P>>,
)
    ensures
        run_spec(
            arguments,
            seq![
                Round { returned: first, on_called: Some(Ok(OnCalledAction::InvokeAgain)) },
                Round { returned: second, on_called: Some(Ok(OnCalledAction::Finish)) },
            ],
        ) == (Run { invocations: 2, outcome: Some(settle_spec(second)) }),
{
    lemma_run_counts_resumes(
        arguments,
        seq![
            Round { returned: first, on_called: Some(Ok(OnCalledAction::InvokeAgain)) },
            Round { returned: second, on_called: Some(Ok(OnCalledAction::Finish)) },
        ],
        1,
    );
}

/// A callback that asks for a trap, or fails itself, ends the call at once
/// with a trap that carries its payload, whatever the callable had returned
/// and whatever would have come after. No host value is left to decode.
pub proof fn lemma_trap_ends_call<P>(
    arguments: Vec<HostValue>,
    returned: Result<HostValue, HostError<P>>,
    payload: P,
    later: Seq<Round<P>>,
)
    ensures
        run_spec(
            arguments,
            seq![Round { returned, on_called: Some(Ok(OnCalledAction::Trap(payload))) }] + later,
        ) == (Run { invocations: 1, outcome: Some(Err(Trap::User(payload))) }),
        run_spec(arguments, seq![Round { returned, on_called: Some(Err(payload)) }] + later) == (
            Run { invocations: 1, outcome: Some(Err(Trap::User(payload))) }
        ),
{
}

/// As long as every round answers `InvokeAgain` the call goes on: the
/// callable is invoked once for each round, and no end is reached.
pub proof fn lemma_run_unbounded<P>(arguments: Vec<HostValue>, rounds: Seq<Round<P>>)
    requires
        forall|i: int|
            0 <= i < rounds.len() ==> round_spec(arguments, #[trigger] rounds[i]) is Calling,
    ensures
        run_spec(arguments, rounds) == (Run::<P> { invocations: rounds.len(), outcome: None }),
    decreases rounds.len(),
{
    if rounds.len() > 0 {
        lemma_run_unbounded(arguments, rounds.drop_first());
    }
}

} // verus!
