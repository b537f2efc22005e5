use mtrap::hsm::HartStateManager;
use mtrap::park::{is_primary_hart, HartPark, ParkPhase};
use mtrap::{SBI_ERR_NOT_SUPPORTED, SBI_SUCCESS};

#[test]
fn hart_start_reports_success_and_names_wake_target() {
    let m = HartStateManager::new();
    let (ret, wake_target) = m.hart_start(3, 0x8020_0000, 0x1234);
    assert_eq!(ret.error, SBI_SUCCESS);
    assert_eq!(ret.value, 0);
    assert_eq!(wake_target, 3);
}

#[test]
fn hart_stop_and_status_are_not_supported() {
    let m = HartStateManager::new();
    let stop = m.hart_stop(1);
    assert_eq!(stop.error, SBI_ERR_NOT_SUPPORTED);
    assert_eq!(stop.value, 0);
    let status = m.hart_get_status(1);
    assert_eq!(status.error, SBI_ERR_NOT_SUPPORTED);
    assert_eq!(status.value, 0);
}

#[test]
fn not_supported_code_is_minus_two() {
    // two's complement encoding of -2 in a 64-bit register
    assert_eq!(SBI_ERR_NOT_SUPPORTED, (-2i64) as u64);
}

#[test]
fn only_hart_zero_is_primary() {
    assert!(is_primary_hart(0));
    assert!(!is_primary_hart(1));
    assert!(!is_primary_hart(7));
}

#[test]
fn parked_hart_stays_parked_until_wake_observed() {
    let mut hart = HartPark::park();
    for _ in 0..5 {
        assert!(!hart.poll()); // no wake yet: keep waiting
        assert_eq!(hart.phase, ParkPhase::Parked);
    }
    hart.wake();
    assert!(hart.poll()); // the pending bit was observed set
    assert_eq!(hart.phase, ParkPhase::Woken);
    hart.complete();
    assert_eq!(hart.phase, ParkPhase::Proceeded);
    assert!(!hart.soft_pending); // the wake signal was consumed
}

#[test]
fn stale_wake_cannot_resume_a_second_park() {
    let mut hart = HartPark::park();
    hart.wake();
    assert!(hart.poll());
    hart.complete();

    // the hart parks again; the earlier wake must not release it
    let mut again = HartPark::park();
    assert!(!again.poll());
    assert!(!again.poll());
    assert_eq!(again.phase, ParkPhase::Parked);
    again.wake(); // only a fresh signal releases it
    assert!(again.poll());
}

#[test]
fn wake_before_park_is_discarded_by_the_entry_clear() {
    let mut early = HartPark { phase: ParkPhase::Proceeded, soft_pending: true };
    early.wake();
    let mut parked = HartPark::park(); // entry clears the pending bit
    assert!(!parked.poll());
    assert_eq!(parked.phase, ParkPhase::Parked);
}
