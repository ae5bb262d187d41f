//! The ownership flag that guards the monitor's shared state.
//!
//! The flag is claimed by a bounded spin: a claim is attempted a fixed number
//! of times and then given up, so acquisition can fail and never blocks. The
//! state lives in a slot that its owner hands to [`GxfVmData::initialize`]
//! and [`GxfVmData::lock`]; nothing here is global.

use core::sync::atomic::AtomicBool;
use core::sync::atomic::Ordering;
use vstd::prelude::*;

verus! {

/// How often [`GxfVmData::acquire`] tries to claim the flag before it gives up.
pub const MAX_ATTEMPTS: usize = 1000;

/// What a spinning claimant does after one attempt.
#[derive(Debug, Clone, Copy, PartialEq, Eq, Structural)]
pub enum SpinStep {
    /// The attempt claimed the flag.
    Acquired,
    /// The attempt failed and the budget allows another.
    Retry,
    /// The attempt failed and it was the last of the budget.
    Exhausted,
}

/// The step that follows an attempt, given how many attempts failed before
/// it and whether it claimed the flag.
pub open spec fn spec_after_attempt(failed_before: usize, claimed: bool) -> SpinStep {
    if claimed {
        SpinStep::Acquired
    } else if failed_before + 1 < MAX_ATTEMPTS {
        SpinStep::Retry
    } else {
        SpinStep::Exhausted
    }
}

#[verifier::when_used_as_spec(spec_after_attempt)]
pub fn after_attempt(failed_before: usize, claimed: bool) -> (step: SpinStep)
    ensures
        step == spec_after_attempt(failed_before, claimed),
{
    if claimed {
        SpinStep::Acquired
    } else if failed_before < MAX_ATTEMPTS - 1 {
        SpinStep::Retry
    } else {
        SpinStep::Exhausted
    }
}

/// Shared monitor state: at present only the flag that says whether some
/// caller holds it.
#[derive(Debug)]
pub struct GxfVmData {
    owned: AtomicBool,
}

impl GxfVmData {
    /// State that nobody holds.
    pub fn new() -> Self {
        Self { owned: AtomicBool::new(false) }
    }

    /// Tries to claim the flag, at most [`MAX_ATTEMPTS`] times.
    ///
    /// Whether an attempt succeeds depends on who else holds the flag at
    /// that moment, so nothing is promised of the answer but that it comes:
    /// `true` after an attempt that claimed the flag, `false` once the budget
    /// is spent.
    pub fn acquire(&self) -> (acquired: bool) {
        let mut failed: usize = 0;
        loop
            invariant
                failed < MAX_ATTEMPTS,
            decreases MAX_ATTEMPTS - failed,
        {
            let claimed = self.owned.compare_exchange(
                false,
                true,
                Ordering::Acquire,
                Ordering::Relaxed,
            ).is_ok();
            match after_attempt(failed, claimed) {
                SpinStep::Acquired => {
                    return true;
                },
                SpinStep::Exhausted => {
                    return false;
                },
                SpinStep::Retry => {
                    failed = failed + 1;
                },
            }
        }
    }

    /// Gives the flag up. Returns whether it was held: `false` means that
    /// the caller released what it did not own.
    pub fn release(&self) -> (was_held: bool) {
        self.owned.compare_exchange(true, false, Ordering::Relaxed, Ordering::Relaxed).is_ok()
    }

    /// Fills an empty slot with fresh state and leaves a filled one alone.
    pub fn initialize(slot: &mut Option<GxfVmData>)
        ensures
            (*final(slot)) is Some,
            (*old(slot)) is Some ==> *final(slot) == *old(slot),
    {
        if slot.is_none() {
            *slot = Some(GxfVmData::new());
        }
    }

    /// Tries to claim the state in `slot`. Returns nothing where the slot is
    /// empty or the claim was given up; otherwise a handle on that state.
    pub fn lock(slot: &Option<GxfVmData>) -> (handle: Option<GxfVmDataRef<'_>>)
        ensures
            slot is None ==> handle is None,
            handle is Some ==> slot is Some && handle->Some_0.guarded() == slot->Some_0,
    {
        match slot {
            Some(data) => {
                // Who else holds the flag decides whether the claim
                // succeeds; what the answer entitles the caller to is
                // decided here.
                let acquired = data.acquire();
                GxfVmDataRef::after_claim(data, acquired)
            },
            None => None,
        }
    }
}

/// A claim on the state, held from a successful [`GxfVmData::lock`] until
/// [`GxfVmDataRef::release`].
pub struct GxfVmDataRef<'a> {
    data: &'a GxfVmData,
}

impl<'a> GxfVmDataRef<'a> {
    /// The state that this handle holds.
    pub closed spec fn guarded(&self) -> GxfVmData {
        *self.data
    }

    /// The state that this handle holds.
    pub fn get(&self) -> (data: &'a GxfVmData)
        ensures
            *data == self.guarded(),
    {
        self.data
    }

    /// Ends the claim. Returns whether the flag was held, as
    /// [`GxfVmData::release`] does.
    pub fn release(self) -> (was_held: bool) {
        self.data.release()
    }

    /// What the answer of [`GxfVmData::acquire`] on `data` entitles its
    /// caller to: a handle on `data` where the flag was claimed, nothing
    /// where the claim was given up.
    pub fn after_claim(data: &'a GxfVmData, acquired: bool) -> (handle: Option<Self>)
        ensures
            acquired ==> handle is Some && handle->Some_0.guarded() == *data,
            !acquired ==> handle is None,
    {
        if acquired {
            Some(GxfVmDataRef { data })
        } else {
            None
        }
    }
}

} // verus!
