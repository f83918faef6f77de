//! Typed functions: binding a native signature to an exported function, and
//! moving arguments and results across the call boundary.

use vstd::prelude::*;
use crate::host::{
    decode, decode_spec, encode, encode_spec, fits_spec, lemma_native_round_trip, models,
    HostModel, HostValue,
};
use crate::trap::Trap;
use crate::value::{Value, ValueType};

verus! {

/// The largest number of parameters that a typed function can have.
pub const MAX_ARITY: usize = 20;

/// The parameter types and the result types of a function, each in order.
#[derive(Clone, Debug, PartialEq, Eq)]
pub struct Signature {
    params: Vec<ValueType>,
    results: Vec<ValueType>,
}

/// What a [`Signature`] stands for.
#[verifier::ext_equal]
pub struct SignatureModel {
    pub params: Seq<ValueType>,
    pub results: Seq<ValueType>,
}

/// Whether two type sequences are the same, place by place.
fn same_types(left: &Vec<ValueType>, right: &Vec<ValueType>) -> (same: bool)
    ensures
        same == (left@ == right@),
{
    if left.len() != right.len() {
        return false;
    }
    let mut i: usize = 0;
    while i < left.len()
        invariant
            left.len() == right.len(),
            i <= left.len(),
            forall|j: int| 0 <= j < i ==> left@[j] == right@[j],
        decreases left.len() - i,
    {
        if left[i] != right[i] {
            return false;
        }
        i += 1;
    }
    assert(left@ =~= right@);
    true
}

/// A copy of a type sequence.
fn copy_types(types: &Vec<ValueType>) -> (copy: Vec<ValueType>)
    ensures
        copy@ == types@,
{
    let mut copy: Vec<ValueType> = Vec::new();
    let mut i: usize = 0;
    while i < types.len()
        invariant
            i <= types.len(),
            copy@ == types@.take(i as int),
        decreases types.len() - i,
    {
        copy.push(types[i]);
        i += 1;
    }
    copy
}

impl Signature {
    /// What the signature stands for: its two sequences of types.
    pub closed spec fn view(&self) -> SignatureModel {
        SignatureModel { params: self.params@, results: self.results@ }
    }

    /// The signature with these parameter and result types.
    pub fn new(params: Vec<ValueType>, results: Vec<ValueType>) -> (signature: Signature)
        ensures
            signature@ == (SignatureModel { params: params@, results: results@ }),
    {
        Signature { params, results }
    }

    /// The parameter types, in order.
    pub fn params(&self) -> (params: &Vec<ValueType>)
        ensures
            params@ == self@.params,
    {
        &self.params
    }

    /// The result types, in order.
    pub fn results(&self) -> (results: &Vec<ValueType>)
        ensures
            results@ == self@.results,
    {
        &self.results
    }

    /// Whether this signature and `other` name the same types in the same
    /// places.
    pub fn matches(&self, other: &Signature) -> (same: bool)
        ensures
            same == (self@ == other@),
    {
        same_types(&self.params, &other.params) && same_types(&self.results, &other.results)
    }
}

/// Why a native signature could not be bound to an exported function.
#[derive(Clone, Debug, PartialEq, Eq)]
pub enum BindError {
    /// The native parameter types are not those of the export.
    Parameters { given: Vec<ValueType>, expected: Vec<ValueType> },
    /// The native result types are not those of the export.
    Results { given: Vec<ValueType>, expected: Vec<ValueType> },
    /// The function takes more parameters than a typed function can have.
    Arity { count: usize },
}

/// The types of a sequence of values, in order.
pub open spec fn types_of(values: Seq<Value>) -> Seq<ValueType> {
    Seq::new(values.len(), |i: int| values[i].ty_spec())
}

/// The host values that carry `args`: each argument written to a slot and
/// the slot encoded for the argument's type, in the order of the arguments.
pub open spec fn marshal_spec(args: Seq<Value>) -> Seq<HostModel> {
    Seq::new(args.len(), |i: int| encode_spec(args[i].to_raw_spec(), args[i].ty_spec()))
}

/// Whether `returned` has the shape that a function with these result types
/// hands back: with two or more results, that of an aggregate. A function
/// that hands back anything else there has broken its word, and there is no
/// way to go on.
pub open spec fn admits_spec(results: Seq<ValueType>, returned: HostModel) -> bool {
    results.len() >= 2 ==> returned is Aggregate
}

/// Whether `returned` carries a value for each of the result types. With no
/// result anything will do. With one result the value itself carries it.
/// With more, the value is an aggregate that holds a fitting element for
/// each result, at the index of that result.
pub open spec fn conforms_spec(results: Seq<ValueType>, returned: HostModel) -> bool {
    if results.len() == 0 {
        true
    } else if results.len() == 1 {
        fits_spec(returned, results[0])
    } else {
        &&& returned matches HostModel::Aggregate(items)
        &&& results.len() <= items.len()
        &&& forall|i: int| 0 <= i < results.len() ==> fits_spec(#[trigger] items[i], results[i])
    }
}

/// The native value of type `ty` that a host value carries. It is meant for
/// host values that fit the type.
pub open spec fn read_spec(host: HostModel, ty: ValueType) -> Value
    recommends
        fits_spec(host, ty),
{
    Value::from_raw_spec(ty, decode_spec(host, ty)->Some_0)
}

/// The native results that `returned` carries. With no result the value is
/// not looked at. With one result it is decoded as it stands. With more,
/// element `i` of the aggregate is decoded for result type `i`. It is meant
/// for host values that conform to the result types.
pub open spec fn unmarshal_spec(results: Seq<ValueType>, returned: HostModel) -> Seq<Value>
    recommends
        conforms_spec(results, returned),
{
    if results.len() == 0 {
        Seq::empty()
    } else if results.len() == 1 {
        seq![read_spec(returned, results[0])]
    } else {
        Seq::new(results.len(), |i: int| read_spec(returned->Aggregate_0[i], results[i]))
    }
}

/// Marshalling keeps the order of the arguments: the host value at each
/// place carries the argument at that place, and the arguments of a longer
/// call marshal to what its leading arguments marshal to, followed by what
/// the rest marshal to.
pub proof fn lemma_marshal_keeps_order(front: Seq<Value>, back: Seq<Value>)
    ensures
        marshal_spec(front).len() == front.len(),
        forall|i: int|
            0 <= i < front.len() ==> #[trigger] marshal_spec(front)[i] == encode_spec(
                front[i].to_raw_spec(),
                front[i].ty_spec(),
            ),
        marshal_spec(front + back) == marshal_spec(front) + marshal_spec(back),
{
}

/// A function of one result that hands back one of its arguments as it
/// received it gives the caller exactly that argument, whichever of the
/// arguments it is and however many there are.
pub proof fn lemma_argument_comes_back(args: Seq<Value>, n: int)
    requires
        0 <= n < args.len(),
    ensures
        conforms_spec(seq![args[n].ty_spec()], marshal_spec(args)[n]),
        unmarshal_spec(seq![args[n].ty_spec()], marshal_spec(args)[n]) == seq![args[n]],
{
    lemma_native_round_trip(args[n]);
}

/// A function of two or more results that hands back all of its arguments,
/// as an aggregate in their order, gives the caller exactly those
/// arguments.
pub proof fn lemma_arguments_come_back(args: Seq<Value>)
    requires
        args.len() >= 2,
    ensures
        conforms_spec(types_of(args), HostModel::Aggregate(marshal_spec(args))),
        unmarshal_spec(types_of(args), HostModel::Aggregate(marshal_spec(args))) == args,
{
    assert forall|i: int| 0 <= i < args.len() implies fits_spec(
        #[trigger] marshal_spec(args)[i],
        args[i].ty_spec(),
    ) && read_spec(marshal_spec(args)[i], args[i].ty_spec()) == args[i] by {
        lemma_native_round_trip(args[i]);
    }
}

/// The three shapes of a result. With no result every host value conforms
/// and nothing comes out. With one result a conforming value is a scalar,
/// never an aggregate, and one value comes out. With two or more, a value
/// conforms only if it is an aggregate, and one value comes out for each
/// result type.
pub proof fn lemma_result_shapes(results: Seq<ValueType>, returned: HostModel)
    ensures
        conforms_spec(results, returned) ==> admits_spec(results, returned),
        results.len() == 0 ==> conforms_spec(results, returned) && unmarshal_spec(
            results,
            returned,
        ) == Seq::<Value>::empty(),
        results.len() == 1 && conforms_spec(results, returned) ==> !(returned is Aggregate),
        results.len() >= 2 && conforms_spec(results, returned) ==> returned is Aggregate,
        unmarshal_spec(results, returned).len() == results.len(),
        types_of(unmarshal_spec(results, returned)) == results,
{
}

/// What a call hands to its caller, given what the call loop came to: a
/// trap as it is, with nothing decoded, or the native results that the host
/// value carries, if it carries a value for each result type.
pub open spec fn finish_spec<P>(
    results: Seq<ValueType>,
    outcome: Result<HostValue, Trap<P>>,
) -> Result<Option<Seq<Value>>, Trap<P>> {
    match outcome {
        Ok(returned) => Ok(
            if conforms_spec(results, returned@) {
                Some(unmarshal_spec(results, returned@))
            } else {
                None
            },
        ),
        Err(trap) => Err(trap),
    }
}

/// An exported function together with the native signature that it was
/// bound with. `F` is the host engine's callable object, or a handle to it;
/// nothing here looks into it.
pub struct TypedFunction<F> {
    callable: F,
    signature: Signature,
}

impl<F> TypedFunction<F> {
    #[verifier::type_invariant]
    spec fn within_arity(self) -> bool {
        self.signature@.params.len() <= MAX_ARITY
    }

    /// The callable object that is invoked.
    pub closed spec fn callable_spec(&self) -> F {
        self.callable
    }

    /// The signature that the function was bound with.
    pub closed spec fn signature_spec(&self) -> SignatureModel {
        self.signature@
    }

    /// Binds `callable`, an export of signature `exported`, with the
    /// signature `native` that the caller's types make up.
    ///
    /// The parameter types are compared first, then the result types, then
    /// the number of parameters against [`MAX_ARITY`]. The first that fails
    /// is the error, and then no typed function comes to exist.
    pub fn bind(
        callable: F,
        exported: &Signature,
        native: Signature,
    ) -> (bound: Result<TypedFunction<F>, BindError>)
        ensures
            bound is Ok <==> native@ == exported@ && native@.params.len() <= MAX_ARITY,
            bound matches Ok(typed) ==> ({
                &&& typed.callable_spec() == callable
                &&& typed.signature_spec() == native@
            }),
            native@.params != exported@.params ==> ({
                &&& bound matches Err(BindError::Parameters { given, expected })
                &&& given@ == native@.params
                &&& expected@ == exported@.params
            }),
            native@.params == exported@.params && native@.results != exported@.results ==> ({
                &&& bound matches Err(BindError::Results { given, expected })
                &&& given@ == native@.results
                &&& expected@ == exported@.results
            }),
            native@ == exported@ && native@.params.len() > MAX_ARITY ==> ({
                &&& bound matches Err(BindError::Arity { count })
                &&& count == native@.params.len()
            }),
    {
        if !same_types(&native.params, &exported.params) {
            return Err(
                BindError::Parameters {
                    given: native.params,
                    expected: copy_types(&exported.params),
                },
            );
        }
        if !same_types(&native.results, &exported.results) {
            return Err(
                BindError::Results {
                    given: native.results,
                    expected: copy_types(&exported.results),
                },
            );
        }
        if native.params.len() > MAX_ARITY {
            return Err(BindError::Arity { count: native.params.len() });
        }
        Ok(TypedFunction { callable, signature: native })
    }

    /// The callable object that is invoked.
    pub fn callable(&self) -> (callable: &F)
        ensures
            *callable == self.callable_spec(),
    {
        &self.callable
    }

    /// The signature that the function was bound with.
    pub fn signature(&self) -> (signature: &Signature)
        ensures
            signature@ == self.signature_spec(),
            signature@.params.len() <= MAX_ARITY,
    {
        proof {
            use_type_invariant(self);
        }
        &self.signature
    }

    /// Whether `args` are values of the parameter types, one for each
    /// parameter and in their order.
    pub fn accepts(&self, args: &Vec<Value>) -> (yes: bool)
        ensures
            yes == (types_of(args@) == self.signature_spec().params),
    {
        let params = &self.signature.params;
        if args.len() != params.len() {
            return false;
        }
        let mut i: usize = 0;
        while i < args.len()
            invariant
                params@ == self.signature_spec().params,
                args.len() == params.len(),
                i <= args.len(),
                forall|j: int| 0 <= j < i ==> args@[j].ty_spec() == params@[j],
            decreases args.len() - i,
        {
            if args[i].ty() != params[i] {
                return false;
            }
            i += 1;
        }
        assert(types_of(args@) =~= params@);
        true
    }

    /// Marshals the arguments of one call: each is written to a slot and
    /// the slot is encoded at once, from the first argument to the last,
    /// and the host values stand in the order of the arguments. Nothing is
    /// marshalled unless the arguments are of the parameter types.
    pub fn marshal(&self, args: &Vec<Value>) -> (marshalled: Option<Vec<HostValue>>)
        ensures
            marshalled is Some <==> types_of(args@) == self.signature_spec().params,
            marshalled matches Some(hosts) ==> models(hosts@) == marshal_spec(args@),
    {
        if !self.accepts(args) {
            return None;
        }
        let mut hosts: Vec<HostValue> = Vec::new();
        let mut i: usize = 0;
        while i < args.len()
            invariant
                i <= args.len(),
                hosts@.len() == i,
                forall|j: int|
                    0 <= j < i ==> (#[trigger] hosts@[j])@ == encode_spec(
                        args@[j].to_raw_spec(),
                        args@[j].ty_spec(),
                    ),
            decreases args.len() - i,
        {
            let raw = args[i].to_raw();
            let host = encode(raw, args[i].ty());
            hosts.push(host);
            i += 1;
        }
        Some(hosts)
    }

    /// Whether `returned` has the shape that this function hands back, so
    /// that [`TypedFunction::unmarshal`] may be asked for its results: with
    /// two or more results, whether it is an aggregate.
    pub fn admits(&self, returned: &HostValue) -> (yes: bool)
        ensures
            yes == admits_spec(self.signature_spec().results, returned@),
    {
        self.signature.results.len() < 2 || returned.is_aggregate()
    }

    /// Unmarshals the results of one call from what the host handed back.
    ///
    /// With no result, nothing is decoded. With one result, the value is
    /// decoded as it stands; it is not taken for an aggregate. With two or
    /// more, the value must be an aggregate: its elements are fetched by
    /// index, from zero upwards, and each is decoded for the result type at
    /// that index. There are no results where a value is missing or is not
    /// of its type.
    pub fn unmarshal(&self, returned: &HostValue) -> (values: Option<Vec<Value>>)
        requires
            admits_spec(self.signature_spec().results, returned@),
        ensures
            values is Some <==> conforms_spec(self.signature_spec().results, returned@),
            values matches Some(list) ==> ({
                &&& list@ == unmarshal_spec(self.signature_spec().results, returned@)
                &&& types_of(list@) == self.signature_spec().results
            }),
    {
        let results = &self.signature.results;
        let mut values: Vec<Value> = Vec::new();
        if results.len() == 0 {
            return Some(values);
        }
        if results.len() == 1 {
            return match decode(returned, results[0]) {
                Some(raw) => {
                    values.push(Value::from_raw(results[0], raw));
                    Some(values)
                },
                None => None,
            };
        }
        let mut i: usize = 0;
        while i < results.len()
            invariant
                results@ == self.signature_spec().results,
                results.len() >= 2,
                returned@ is Aggregate,
                i <= results.len(),
                i <= returned@->Aggregate_0.len(),
                values@.len() == i,
                forall|j: int|
                    0 <= j < i ==> fits_spec(#[trigger] returned@->Aggregate_0[j], results@[j]),
                forall|j: int|
                    0 <= j < i ==> #[trigger] values@[j] == read_spec(
                        returned@->Aggregate_0[j],
                        results@[j],
                    ),
            decreases results.len() - i,
        {
            let item = match returned.element(i) {
                Some(item) => item,
                None => {
                    return None;
                },
            };
            match decode(item, results[i]) {
                Some(raw) => {
                    values.push(Value::from_raw(results[i], raw));
                },
                None => {
                    return None;
                },
            }
            i += 1;
        }
        Some(values)
    }

    /// The last step of a call, after the call loop is over. A trap goes to
    /// the caller as it is, and then no host value is looked at. The value
    /// of a call that succeeded is unmarshalled.
    pub fn finish<P>(
        &self,
        outcome: Result<HostValue, Trap<P>>,
    ) -> (finished: Result<Option<Vec<Value>>, Trap<P>>)
        requires
            outcome matches Ok(returned) ==> admits_spec(self.signature_spec().results, returned@),
        ensures
            match finished {
                Ok(Some(values)) => Ok::<Option<Seq<Value>>, Trap<P>>(Some(values@)),
                Ok(None) => Ok(None),
                Err(trap) => Err(trap),
            } == finish_spec(self.signature_spec().results, outcome),
    {
        match outcome {
            Ok(returned) => Ok(self.unmarshal(&returned)),
            Err(trap) => Err(trap),
        }
    }
}

} // verus!
