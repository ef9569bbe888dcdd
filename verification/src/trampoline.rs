use vstd::prelude::*;

use crate::error::Error;
use crate::value::{spec_slot_of, spec_value_of_slot, value_to_slot, slot_to_value, Kind, TaggedValue};

verus! {

/// The host-defined callbacks guest imports may invoke, by index.
///
/// A callback is opaque host code: it takes the call's arguments encoded as
/// one fixed-width integer array, and yields a like-shaped result array or a
/// host-level failure message. The table's element type is a host callable,
/// which cannot be declared to the verifier, so the collection lives behind
/// this opaque struct and is reached only through the functions below.
#[verifier::external_body]
pub struct CallbackTable {
    callbacks: Vec<std::sync::Arc<dyn Fn(&[i64]) -> Result<Vec<i64>, String> + Send + Sync>>,
}

/// How many callbacks the table holds.
pub uninterp spec fn callback_count(t: CallbackTable) -> nat;

/// Relies on Vec::new: a fresh table holding no callbacks.
#[verifier::external_body]
pub fn callbacks_new() -> (t: CallbackTable)
    ensures
        callback_count(t) == 0,
{
    CallbackTable { callbacks: Vec::new() }
}

/// Relies on Vec::push: adds a host callback at the next free index and
/// yields that index.
#[verifier::external_body]
pub fn callbacks_push<F: Fn(&[i64]) -> Result<Vec<i64>, String> + Send + Sync + 'static>(
    t: &mut CallbackTable,
    f: F,
) -> (idx: usize)
    ensures
        callback_count(*final(t)) == callback_count(*old(t)) + 1,
        idx == callback_count(*old(t)),
{
    t.callbacks.push(std::sync::Arc::new(f));
    t.callbacks.len() - 1
}

/// Relies on Vec::len: how many callbacks the table holds.
#[verifier::external_body]
pub fn callbacks_len(t: &CallbackTable) -> (r: usize)
    ensures
        r == callback_count(*t),
{
    t.callbacks.len()
}

/// Relies on Vec::clone and Arc::clone: a table sharing the same callbacks.
#[verifier::external_body]
pub fn callbacks_clone(t: &CallbackTable) -> (r: CallbackTable)
    ensures
        callback_count(r) == callback_count(*t),
{
    CallbackTable { callbacks: t.callbacks.clone() }
}

/// Relies on the host-defined callback behind index `idx`: delivers the
/// encoded argument slots to it as one array and yields its like-shaped
/// result array, or its host-level failure. The callback is host code;
/// nothing is promised of its outcome.
#[verifier::external_body]
fn callbacks_invoke(t: &CallbackTable, idx: usize, args: &Vec<i64>) -> (r: Result<Vec<i64>, String>)
    requires
        idx < callback_count(*t),
{
    (t.callbacks[idx])(args.as_slice())
}

/// Whether actual arguments carry exactly the declared parameter kinds.
pub open spec fn kinds_match(params: Seq<Kind>, args: Seq<TaggedValue>) -> bool {
    &&& params.len() == args.len()
    &&& forall|i: int| 0 <= i < args.len() ==> (#[trigger] args[i]).kind_spec() == params[i]
}

/// Encodes a guest call's arguments for delivery to a host callback: one
/// 64-bit slot per argument, integers passed through (32-bit ones
/// sign-extended), float bit patterns reinterpreted, never value-converted.
/// A mismatch between an argument's kind and the declared parameter kind is
/// a contract violation: the call fails fast with a trap and nothing is
/// silently coerced.
pub fn encode_arguments(params: &Vec<Kind>, args: &Vec<TaggedValue>) -> (r: Result<Vec<i64>, Error>)
    ensures
        r is Ok <==> kinds_match(params@, args@),
        r is Ok ==> {
            &&& r->Ok_0@.len() == args@.len()
            &&& forall|i: int| 0 <= i < args@.len() ==> r->Ok_0@[i] == spec_slot_of(
                #[trigger] args@[i],
            )
        },
        r is Err ==> r->Err_0 is Trap,
{
    if params.len() != args.len() {
        return Err(Error::Trap("argument count does not match the declared signature".to_owned()));
    }
    let mut slots: Vec<i64> = Vec::new();
    let mut i: usize = 0;
    while i < args.len()
        invariant
            i <= args@.len(),
            params@.len() == args@.len(),
            slots@.len() == i,
            forall|j: int| 0 <= j < i ==> (#[trigger] args@[j]).kind_spec() == params@[j],
            forall|j: int| 0 <= j < i ==> slots@[j] == spec_slot_of(#[trigger] args@[j]),
        decreases args@.len() - i,
    {
        let arg = &args[i];
        if arg.kind() != params[i] {
            return Err(
                Error::Trap("argument kind does not match the declared signature".to_owned()),
            );
        }
        slots.push(value_to_slot(arg));
        i = i + 1;
    }
    Ok(slots)
}

/// Decodes a host callback's result array against the declared result kinds:
/// one slot per declared kind, in order, each reinterpreted at its declared
/// kind, bit-for-bit. The single-array convention fixes only the front of
/// the array: slots beyond the declared count are ignored, and an import
/// declaring no results reads nothing of the array at all. An array shorter
/// than the declared result list is a host-side contract violation and
/// fails with a trap.
pub fn decode_results(kinds: &Vec<Kind>, slots: &Vec<i64>) -> (r: Result<Vec<TaggedValue>, Error>)
    ensures
        r is Ok <==> slots@.len() >= kinds@.len(),
        r is Ok ==> {
            &&& r->Ok_0@.len() == kinds@.len()
            &&& forall|i: int| 0 <= i < kinds@.len() ==> r->Ok_0@[i] == spec_value_of_slot(
                #[trigger] kinds@[i],
                slots@[i],
            )
        },
        r is Err ==> r->Err_0 is Trap,
{
    if slots.len() < kinds.len() {
        return Err(Error::Trap("fewer results than the declared signature".to_owned()));
    }
    let mut out: Vec<TaggedValue> = Vec::new();
    let mut i: usize = 0;
    while i < kinds.len()
        invariant
            i <= kinds@.len(),
            slots@.len() >= kinds@.len(),
            out@.len() == i,
            forall|j: int| 0 <= j < i ==> out@[j] == spec_value_of_slot(
                #[trigger] kinds@[j],
                slots@[j],
            ),
        decreases kinds@.len() - i,
    {
        out.push(slot_to_value(kinds[i], slots[i]));
        i = i + 1;
    }
    Ok(out)
}

/// The trampoline's encoding is bit-exact: an argument list carrying the
/// declared kinds, packed into slots and unpacked at those same kinds,
/// comes back unchanged, value for value.
pub proof fn lemma_trampoline_round_trip(params: Seq<Kind>, args: Seq<TaggedValue>)
    requires
        kinds_match(params, args),
    ensures
        forall|i: int|
            0 <= i < args.len() ==> spec_value_of_slot(params[i], spec_slot_of(#[trigger] args[i]))
                == args[i],
{
    assert forall|i: int|
        0 <= i < args.len() implies spec_value_of_slot(
        params[i],
        spec_slot_of(#[trigger] args[i]),
    ) == args[i] by {
        crate::value::lemma_slot_round_trip(args[i]);
    }
}

/// What the trampoline makes of the host callback's outcome. A host-level
/// failure aborts the call as a trap carrying the host's own message, never
/// a fabricated success. A result array shorter than the declared result
/// list is a host-side contract violation and traps; otherwise one slot per
/// declared kind is read, in order, and anything beyond the declared count
/// is ignored, as the single-array convention allows.
pub fn finish_host_call(results: &Vec<Kind>, outcome: Result<Vec<i64>, String>) -> (r: Result<
    Vec<TaggedValue>,
    Error,
>)
    ensures
        outcome matches Err(m) ==> r == Err::<Vec<TaggedValue>, Error>(Error::Trap(m)),
        outcome matches Ok(slots) ==> {
            &&& (r is Ok <==> slots@.len() >= results@.len())
            &&& (r matches Ok(vs) ==> vs@.len() == results@.len() && forall|i: int|
                0 <= i < results@.len() ==> vs@[i] == spec_value_of_slot(
                    #[trigger] results@[i],
                    slots@[i],
                ))
        },
        r is Err ==> r->Err_0 is Trap,
{
    match outcome {
        Ok(slots) => decode_results(results, &slots),
        Err(m) => Err(Error::Trap(m)),
    }
}

/// Carries one guest call to a host-defined function: checks the arguments
/// against the declared parameter kinds, encodes them into one integer
/// array, invokes the host callback with it synchronously, and decodes the
/// like-shaped array it returns at the declared result kinds.
///
/// Every failure is surfaced as a trap aborting the in-flight guest call: a
/// kind or arity mismatch of the arguments, an unregistered callback index,
/// a host-level failure raised by the callback, and a callback result array
/// shorter than the declared result list (see `finish_host_call`; extra
/// slots are ignored). A successful call yields exactly one value per
/// declared result kind, each carrying its declared kind.
pub fn trampoline_invoke(
    table: &CallbackTable,
    idx: usize,
    params: &Vec<Kind>,
    results: &Vec<Kind>,
    args: &Vec<TaggedValue>,
) -> (r: Result<Vec<TaggedValue>, Error>)
    ensures
        r is Ok ==> {
            &&& kinds_match(params@, args@)
            &&& idx < callback_count(*table)
            &&& r->Ok_0@.len() == results@.len()
            &&& forall|i: int| 0 <= i < results@.len() ==> (#[trigger] r->Ok_0@[i]).kind_spec()
                == results@[i]
        },
        r is Err ==> r->Err_0 is Trap,
        !kinds_match(params@, args@) ==> r is Err,
        idx >= callback_count(*table) ==> r is Err,
{
    let slots = match encode_arguments(params, args) {
        Ok(s) => s,
        Err(e) => {
            return Err(e);
        },
    };
    if idx >= callbacks_len(table) {
        return Err(Error::Trap("the import names no registered host callback".to_owned()));
    }
    let outcome = callbacks_invoke(table, idx, &slots);
    let ghost outcome_snapshot = outcome;
    let r = finish_host_call(results, outcome);
    proof {
        if r is Ok {
            assert(outcome_snapshot is Ok);
            assert forall|i: int| 0 <= i < results@.len() implies (
            #[trigger] r->Ok_0@[i]).kind_spec() == results@[i] by {
                assert(r->Ok_0@[i] == spec_value_of_slot(
                    results@[i],
                    outcome_snapshot->Ok_0@[i],
                ));
            }
        }
    }
    r
}

} // verus!
