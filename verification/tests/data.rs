use gxf_vm::data::{after_attempt, GxfVmData, GxfVmDataRef, SpinStep, MAX_ATTEMPTS};

#[test]
fn budget_is_a_thousand_attempts() {
    assert_eq!(MAX_ATTEMPTS, 1000);
}

#[test]
fn a_claim_ends_the_spin() {
    assert_eq!(after_attempt(0, true), SpinStep::Acquired);
    assert_eq!(after_attempt(999, true), SpinStep::Acquired);
}

#[test]
fn a_failure_within_budget_retries() {
    assert_eq!(after_attempt(0, false), SpinStep::Retry);
    assert_eq!(after_attempt(998, false), SpinStep::Retry);
}

#[test]
fn the_last_failure_exhausts_the_budget() {
    assert_eq!(after_attempt(999, false), SpinStep::Exhausted);
    assert_eq!(after_attempt(usize::MAX, false), SpinStep::Exhausted);
}

#[test]
fn fresh_state_can_be_acquired_once() {
    let data = GxfVmData::new();
    assert!(data.acquire());
    assert!(!data.acquire());
}

#[test]
fn release_reports_whether_the_flag_was_held() {
    let data = GxfVmData::new();
    assert!(!data.release());
    assert!(data.acquire());
    assert!(data.release());
    assert!(!data.release());
    assert!(data.acquire());
}

#[test]
fn lock_on_an_empty_slot_gives_nothing() {
    let slot: Option<GxfVmData> = None;
    assert!(GxfVmData::lock(&slot).is_none());
}

#[test]
fn lock_excludes_a_second_holder_until_release() {
    let mut slot: Option<GxfVmData> = None;
    GxfVmData::initialize(&mut slot);
    let first = GxfVmData::lock(&slot);
    assert!(first.is_some());
    assert!(GxfVmData::lock(&slot).is_none());
    assert!(first.unwrap().release());
    let again = GxfVmData::lock(&slot);
    assert!(again.is_some());
}

#[test]
fn initialize_twice_keeps_the_state() {
    let mut slot: Option<GxfVmData> = None;
    GxfVmData::initialize(&mut slot);
    assert!(slot.is_some());
    assert!(slot.as_ref().unwrap().acquire());
    GxfVmData::initialize(&mut slot);
    assert!(!slot.as_ref().unwrap().acquire());
}

#[test]
fn handle_gives_the_state_it_guards() {
    let mut slot: Option<GxfVmData> = None;
    GxfVmData::initialize(&mut slot);
    let handle = GxfVmData::lock(&slot).unwrap();
    assert!(std::ptr::eq(handle.get(), slot.as_ref().unwrap()));
    assert!(!handle.get().acquire());
    assert!(handle.release());
}

#[test]
fn a_failed_claim_entitles_to_nothing() {
    let data = GxfVmData::new();
    assert!(GxfVmDataRef::after_claim(&data, false).is_none());
}

#[test]
fn a_successful_claim_entitles_to_a_handle_on_the_state() {
    let data = GxfVmData::new();
    let acquired = data.acquire();
    assert!(acquired);
    let handle = GxfVmDataRef::after_claim(&data, acquired).unwrap();
    assert!(std::ptr::eq(handle.get(), &data));
    assert!(handle.release());
    assert!(data.acquire());
}
