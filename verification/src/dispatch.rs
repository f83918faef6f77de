//! The calling convention as a whole: what one call comes to, from the
//! native arguments to the native results.
//!
//! A call marshals its arguments, makes the store known to the engine,
//! goes through the call loop and unmarshals what the loop came to. The
//! parts are in [`crate::typed_function`] and [`crate::call_loop`]; here
//! they are put together, and what holds of the whole is stated.

use vstd::prelude::*;
use crate::call_loop::{
    lemma_fault_propagates, lemma_resume_once, lemma_trap_ends_call, run_spec, OnCalledAction,
    Round,
};
use crate::host::{models, HostModel, HostValue};
use crate::trap::{settle_spec, HostError, Trap};
use crate::typed_function::{
    finish_spec, lemma_argument_comes_back, lemma_arguments_come_back, marshal_spec, types_of,
};
use crate::value::{Value, ValueType};

verus! {

/// What a call of a function with result types `results` comes to when it
/// is made with the marshalled `arguments` and the engine answers as
/// `rounds` say. There is no outcome as long as the call has not ended, and
/// there are no results where the engine hands back what carries none.
pub open spec fn call_spec<P>(
    results: Seq<ValueType>,
    arguments: Vec<HostValue>,
    rounds: Seq<Round<P>>,
) -> Option<Result<Option<Seq<Value>>, Trap<P>>> {
    match run_spec(arguments, rounds).outcome {
        None => None,
        Some(outcome) => Some(finish_spec(results, outcome)),
    }
}

/// A function of one result that hands back one of its arguments as it
/// received it: the call yields exactly that argument, for every number of
/// arguments and whichever of them it is.
pub proof fn lemma_call_hands_back_argument<P>(
    args: Seq<Value>,
    n: int,
    arguments: Vec<HostValue>,
    returned: HostValue,
    later: Seq<Round<P>>,
)
    requires
        0 <= n < args.len(),
        models(arguments@) == marshal_spec(args),
        returned@ == models(arguments@)[n],
    ensures
        call_spec(
            seq![args[n].ty_spec()],
            arguments,
            seq![Round { returned: Ok(returned), on_called: None }] + later,
        ) == Some(Ok::<Option<Seq<Value>>, Trap<P>>(Some(seq![args[n]]))),
{
    lemma_argument_comes_back(args, n);
}

/// A function of two or more results that hands back all its arguments, as
/// an aggregate in their order: the call yields exactly the arguments.
pub proof fn lemma_call_hands_back_arguments<P>(
    args: Seq<Value>,
    arguments: Vec<HostValue>,
    returned: HostValue,
    later: Seq<Round<P>>,
)
    requires
        args.len() >= 2,
        models(arguments@) == marshal_spec(args),
        returned@ == HostModel::Aggregate(models(arguments@)),
    ensures
        call_spec(
            types_of(args),
            arguments,
            seq![Round { returned: Ok(returned), on_called: None }] + later,
        ) == Some(Ok::<Option<Seq<Value>>, Trap<P>>(Some(args))),
{
    lemma_arguments_come_back(args);
}

/// A guest function that fails, with no callback waiting: the call yields
/// the trap of that failure, after one invocation.
pub proof fn lemma_call_propagates_fault<P>(
    results: Seq<ValueType>,
    arguments: Vec<HostValue>,
    error: HostError<P>,
    later: Seq<Round<P>>,
)
    ensures
        call_spec(
            results,
            arguments,
            seq![Round { returned: Err(error), on_called: None }] + later,
        ) == Some(Err::<Option<Seq<Value>>, Trap<P>>(error.trap_spec())),
        run_spec(arguments, seq![Round { returned: Err(error), on_called: None }] + later)
            .invocations == 1,
{
    lemma_fault_propagates(arguments, error, later);
}

/// A callback that answers `InvokeAgain` once and `Finish` the next time:
/// the callable is invoked exactly twice, and the call yields what the
/// second invocation gave, not what the first gave.
pub proof fn lemma_call_resumed_once<P>(
    results: Seq<ValueType>,
    arguments: Vec<HostValue>,
    first: Result<HostValue, HostError<P>>,
    second: Result<HostValue, HostError<P>>,
)
    ensures
        ({
            let rounds = seq![
                Round { returned: first, on_called: Some(Ok(OnCalledAction::InvokeAgain)) },
                Round { returned: second, on_called: Some(Ok(OnCalledAction::Finish)) },
            ];
            &&& run_spec(arguments, rounds).invocations == 2
            &&& call_spec(results, arguments, rounds) == Some(
                finish_spec(results, settle_spec(second)),
            )
        }),
{
    lemma_resume_once(arguments, first, second);
}

/// A callback that asks for a trap: the call yields that trap after one
/// invocation, and what the callable returned is never decoded, so it need
/// not even be something that could be.
pub proof fn lemma_call_trap_skips_decoding<P>(
    results: Seq<ValueType>,
    arguments: Vec<HostValue>,
    returned: Result<HostValue, HostError<P>>,
    payload: P,
    later: Seq<Round<P>>,
)
    ensures
        ({
            let rounds = seq![
                Round { returned, on_called: Some(Ok(OnCalledAction::Trap(payload))) },
            ] + later;
            &&& run_spec(arguments, rounds).invocations == 1
            &&& call_spec(results, arguments, rounds) == Some(
                Err::<Option<Seq<Value>>, Trap<P>>(Trap::User(payload)),
            )
        }),
{
    lemma_trap_ends_call(arguments, returned, payload, later);
}

} // verus!
