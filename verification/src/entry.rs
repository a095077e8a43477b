//! The edge of an entry point: how a failure of the managed runtime's
//! binding is given its kind, and what an entry point hands back.

use vstd::prelude::*;
use crate::error::BridgeError;

verus! {

/// `jni::errors::Error`, the failure of a call into the managed runtime.
#[verifier::external_type_specification]
#[verifier::external_body]
pub struct ExRuntimeError(jni::errors::Error);

/// The bridge operation on whose behalf the managed runtime was called.
#[derive(Debug, Clone, Copy, PartialEq, Eq, Structural)]
pub enum Step {
    /// Storing a handle in an object's slot.
    Attach,
    /// Looking up the handle in an object's slot, to use it.
    Access,
    /// Taking the handle out of an object's slot, to drop it.
    Release,
    /// Reading or building a managed value.
    Marshal,
}

/// What the managed runtime's binding reported, as far as the bridge
/// tells failures apart.
#[derive(Debug, Clone, Copy, PartialEq, Eq, Structural)]
pub enum Fault {
    /// The slot already holds a handle.
    SlotOccupied,
    /// A null was found where a value was expected.
    NullValue,
    /// Any other failure.
    Other,
}

/// What an entry point hands back to the managed runtime: the value to
/// return and, where it failed, the text of the error condition to raise.
#[derive(Debug, PartialEq, Eq)]
pub struct Outcome<T> {
    pub value: T,
    pub raise: Option<String>,
}

/// The kind under which a failure of the binding surfaces. An occupied
/// slot met while attaching is an attach failure; a null met while looking
/// up or taking a handle means that none is attached; every other failure
/// is one of marshaling and keeps the binding's text.
pub open spec fn classify_spec(step: Step, fault: Fault, text: String) -> BridgeError {
    match (step, fault) {
        (Step::Attach, Fault::SlotOccupied) => BridgeError::AttachFailure,
        (Step::Access, Fault::NullValue) => BridgeError::NotAttached,
        (Step::Release, Fault::NullValue) => BridgeError::NotAttached,
        _ => BridgeError::MarshalFailure(text),
    }
}

/// Gives a failure of the binding its kind, from the step that met it,
/// what the binding reported and the binding's text.
pub fn classify(step: Step, fault: Fault, text: String) -> (r: BridgeError)
    ensures
        r == classify_spec(step, fault, text),
{
    match (step, fault) {
        (Step::Attach, Fault::SlotOccupied) => BridgeError::AttachFailure,
        (Step::Access, Fault::NullValue) => BridgeError::NotAttached,
        (Step::Release, Fault::NullValue) => BridgeError::NotAttached,
        _ => BridgeError::MarshalFailure(text),
    }
}

/// What a failure of the binding reports: which of its variants it is,
/// as far as the bridge tells them apart.
pub uninterp spec fn runtime_fault(error: jni::errors::Error) -> Fault;

/// The text of a failure of the binding.
pub uninterp spec fn runtime_text(error: jni::errors::Error) -> Seq<char>;

/// Tells the variants of `jni::errors::Error` apart: `FieldAlreadySet`,
/// `NullPtr`, and the rest. The same error is always told the same way.
#[verifier::external_body]
fn fault_of(error: &jni::errors::Error) -> (r: Fault)
    ensures
        r == runtime_fault(*error),
{
    match error {
        jni::errors::Error::FieldAlreadySet(_) => Fault::SlotOccupied,
        jni::errors::Error::NullPtr(_) => Fault::NullValue,
        _ => Fault::Other,
    }
}

/// The `Display` text of a `jni::errors::Error`. The same error always
/// gives the same text.
#[verifier::external_body]
fn text_of(error: &jni::errors::Error) -> (r: String)
    ensures
        r@ == runtime_text(*error),
{
    error.to_string()
}

/// The bridge failure for a failure of the binding met during `step`: its
/// kind by `classify_spec`, and as its text, where it keeps one, the
/// binding's own.
pub fn from_runtime(step: Step, error: &jni::errors::Error) -> (r: BridgeError)
    ensures
        exists|text: String|
            text@ == runtime_text(*error) && r == #[trigger] classify_spec(
                step,
                runtime_fault(*error),
                text,
            ),
        !(r is EngineError),
        r is AttachFailure <==> step == Step::Attach && runtime_fault(*error)
            == Fault::SlotOccupied,
        r is NotAttached <==> (step == Step::Access || step == Step::Release) && runtime_fault(
            *error,
        ) == Fault::NullValue,
        r matches BridgeError::MarshalFailure(text) ==> text@ == runtime_text(*error),
{
    let fault = fault_of(error);
    let text = text_of(error);
    classify(step, fault, text)
}

/// What `unwrap_or_throw` returns, but for the text to raise.
pub open spec fn value_handed_back<T>(pending: bool, result: Result<T, BridgeError>, default: T) -> T {
    match result {
        Ok(value) if !pending => value,
        _ => default,
    }
}

/// Whether `unwrap_or_throw` asks for an error condition to be raised.
pub open spec fn raises<T>(pending: bool, result: Result<T, BridgeError>) -> bool {
    !pending && result is Err
}

/// Whether `outcome` is what an entry point hands back for `result`, with
/// or without an error condition pending on the thread. With one pending,
/// that is the default value and nothing to raise: a second condition is
/// never put on top of a pending one. Otherwise a success hands back its
/// value, and a failure hands back the default value with the failure's
/// message to raise.
pub open spec fn settles<T>(
    outcome: Outcome<T>,
    pending: bool,
    result: Result<T, BridgeError>,
    default: T,
) -> bool {
    &&& outcome.value == value_handed_back(pending, result, default)
    &&& outcome.raise is Some <==> raises(pending, result)
    &&& raises(pending, result) ==> outcome.raise->0@ == result->Err_0.message_spec()
}

/// Settles what an entry point hands back, once its work is done and the
/// thread was asked whether an error condition is pending.
pub fn unwrap_or_throw<T>(pending: bool, result: Result<T, BridgeError>, default: T) -> (r: Outcome<T>)
    ensures
        settles(r, pending, result, default),
{
    if pending {
        return Outcome { value: default, raise: None };
    }
    match result {
        Ok(value) => Outcome { value, raise: None },
        Err(error) => Outcome { value: default, raise: Some(error.message()) },
    }
}

/// Runs one entry point. `pending` asks the thread whether an error
/// condition is pending, and `work` is the entry point's whole fallible
/// computation. With a condition pending at entry, `work` does not run:
/// the default value is handed back and nothing is raised. Otherwise
/// `work` runs once, the thread is asked again, and the outcome is
/// settled as `unwrap_or_throw` does.
pub fn run<T, P: Fn() -> bool, W: FnOnce() -> Result<T, BridgeError>>(
    pending: P,
    work: W,
    default: T,
) -> (r: Outcome<T>)
    requires
        pending.requires(()),
        work.requires(()),
    ensures
        exists|at_entry: bool| #[trigger]
            pending.ensures((), at_entry) && if at_entry {
                r.value == default && r.raise is None
            } else {
                exists|result: Result<T, BridgeError>, at_exit: bool| #[trigger]
                    work.ensures((), result) && #[trigger] pending.ensures((), at_exit)
                        && settles(r, at_exit, result, default)
            },
{
    if pending() {
        return Outcome { value: default, raise: None };
    }
    let result = work();
    let at_exit: bool = pending();
    unwrap_or_throw(at_exit, result, default)
}

} // verus!
