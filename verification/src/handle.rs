//! Handles: the binding of one native value to one managed object.
//!
//! A handle is the hidden slot of a managed object. It is empty until a
//! value is attached, holds that value until it is released, and is empty
//! from then on. Every operation goes through a mutable borrow of the
//! handle, so no two of them ever run on one handle at the same time.

use vstd::prelude::*;
use crate::error::BridgeError;

verus! {

/// The slot of one managed object: empty, or holding one native value.
pub struct Handle<T> {
    slot: Option<T>,
}

/// The slot after an attempt to attach `value`: an empty slot takes the
/// value, an occupied one keeps what it has.
pub open spec fn slot_after_attach<T>(slot: Option<T>, value: T) -> Option<T> {
    match slot {
        None => Some(value),
        Some(_) => slot,
    }
}

/// What an attempt to attach reports.
pub open spec fn attach_report<T>(slot: Option<T>) -> Result<(), BridgeError> {
    match slot {
        None => Ok(()),
        Some(_) => Err(BridgeError::AttachFailure),
    }
}

/// The slot after a release: empty, whatever it held.
pub open spec fn slot_after_release<T>(slot: Option<T>) -> Option<T> {
    None
}

/// What a release reports.
pub open spec fn release_report<T>(slot: Option<T>) -> Result<(), BridgeError> {
    match slot {
        Some(_) => Ok(()),
        None => Err(BridgeError::NotAttached),
    }
}

/// What an access reports, given what the operation returned where it ran:
/// its result, or its failure as an engine error. On an empty slot the
/// operation does not run.
pub open spec fn access_report<T, R>(slot: Option<T>, outcome: Result<R, String>) -> Result<
    R,
    BridgeError,
> {
    match slot {
        None => Err(BridgeError::NotAttached),
        Some(_) => match outcome {
            Ok(value) => Ok(value),
            Err(text) => Err(BridgeError::EngineError(text)),
        },
    }
}

impl<T> View for Handle<T> {
    type V = Option<T>;

    closed spec fn view(&self) -> Option<T> {
        self.slot
    }
}

impl<T> Handle<T> {
    /// A handle with nothing attached.
    pub fn empty() -> (r: Self)
        ensures
            r@ is None,
    {
        Handle { slot: None }
    }

    pub fn is_attached(&self) -> (r: bool)
        ensures
            r == (self@ is Some),
    {
        self.slot.is_some()
    }

    /// Attaches `value` where the handle is empty. An occupied handle is
    /// never overwritten: it keeps its value and the attempt fails.
    pub fn attach(&mut self, value: T) -> (r: Result<(), BridgeError>)
        ensures
            final(self)@ == slot_after_attach(old(self)@, value),
            r == attach_report(old(self)@),
    {
        if self.slot.is_some() {
            Err(BridgeError::AttachFailure)
        } else {
            self.slot = Some(value);
            Ok(())
        }
    }

    /// Runs `op` once on the attached value and hands back what it
    /// returned, a failure of `op` as an engine error. On an empty handle
    /// `op` does not run. The handle is left as it was.
    pub fn with_exclusive_access<R, F: FnOnce(&T) -> Result<R, String>>(&mut self, op: F) -> (r:
        Result<R, BridgeError>)
        requires
            old(self)@ matches Some(value) ==> op.requires((&value,)),
        ensures
            final(self)@ == old(self)@,
            old(self)@ is None ==> r == Err::<R, BridgeError>(BridgeError::NotAttached),
            old(self)@ matches Some(value) ==> exists|outcome: Result<R, String>|
                #[trigger] op.ensures((&value,), outcome) && r == access_report(
                    old(self)@,
                    outcome,
                ),
    {
        match &self.slot {
            None => Err(BridgeError::NotAttached),
            Some(value) => {
                let outcome = op(value);
                match outcome {
                    Ok(result) => Ok(result),
                    Err(text) => Err(BridgeError::EngineError(text)),
                }
            },
        }
    }

    /// Detaches and drops the attached value. The handle is empty
    /// afterwards; a handle that was empty already reports so.
    pub fn release(&mut self) -> (r: Result<(), BridgeError>)
        ensures
            final(self)@ == slot_after_release(old(self)@),
            r == release_report(old(self)@),
    {
        match self.slot.take() {
            Some(_) => Ok(()),
            None => Err(BridgeError::NotAttached),
        }
    }
}

/// After a release the handle is empty whatever it held. So a second
/// release reports that nothing is attached, and so does every access,
/// whatever its operation would have returned; and this stays so under
/// further releases and accesses.
pub proof fn lemma_released_handle_is_not_attached<T, R>(slot: Option<T>, outcome: Result<R, String>)
    ensures
        slot_after_release(slot) is None,
        release_report(slot_after_release(slot)) == Err::<(), BridgeError>(
            BridgeError::NotAttached,
        ),
        access_report(slot_after_release(slot), outcome) == Err::<R, BridgeError>(
            BridgeError::NotAttached,
        ),
        slot_after_release(slot_after_release(slot)) == slot_after_release(slot),
{
}

/// A release succeeds exactly once for each attach: on an attached handle
/// it succeeds, on an empty one it fails.
pub proof fn lemma_release_succeeds_once<T>(slot: Option<T>)
    ensures
        release_report(slot) is Ok <==> slot is Some,
        !(release_report(slot_after_release(slot)) is Ok),
{
}

/// A second attach with no release in between fails as an attach
/// failure, whatever the handle held before the first. The handle keeps
/// what it held after the first attach, and an access to it runs as
/// before.
pub proof fn lemma_second_attach_fails<T, R>(
    slot: Option<T>,
    first: T,
    second: T,
    outcome: Result<R, String>,
)
    ensures
        slot_after_attach(slot, first) is Some,
        slot is None ==> attach_report(slot) is Ok && slot_after_attach(slot, first) == Some(first),
        attach_report(slot_after_attach(slot, first)) == Err::<(), BridgeError>(
            BridgeError::AttachFailure,
        ),
        slot_after_attach(slot_after_attach(slot, first), second) == slot_after_attach(slot, first),
        access_report(slot_after_attach(slot_after_attach(slot, first), second), outcome)
            == access_report(slot_after_attach(slot, first), outcome),
        !(access_report(slot_after_attach(slot, first), outcome) matches Err(
            BridgeError::NotAttached,
        )),
{
}

} // verus!
