use fwupd_efirs::orchestrator::{
    is_attempted_status, status_after_attempt, Action, Orchestrator, NOTHING_TO_DO_STALL_US,
    RESET_STALL_US, VERBOSE_RESET_STALL_US,
};
use fwupd_efirs::record::{
    decode, Timestamp, UpdateInfo, STATUS_ATTEMPTED, STATUS_ATTEMPT_UPDATE, STATUS_FAILED,
    STATUS_SUCCEEDED,
};
use fwupd_efirs::registry::UpdateEntry;

fn zero_time() -> Timestamp {
    Timestamp {
        year: 0,
        month: 0,
        day: 0,
        hour: 0,
        minute: 0,
        second: 0,
        pad1: 0,
        nanosecond: 0,
        time_zone: 0,
        daylight: 0,
        pad2: 0,
    }
}

fn now() -> Timestamp {
    Timestamp { year: 2024, month: 5, day: 17, hour: 8, minute: 30, second: 15, ..zero_time() }
}

fn entry(name: &str, status: u32) -> UpdateEntry {
    UpdateEntry {
        name: name.to_string(),
        attributes: 0x7,
        info: UpdateInfo {
            version: 7,
            guid: 0x42,
            capsule_flags: 0x50000,
            hw_inst: 0,
            time_attempted: zero_time(),
            status,
            device_path: vec![0x7f, 0xff, 4, 0],
        },
    }
}

/// Runs the machine to its end, reporting `outcome` for every apply step.
/// Returns the applied indices, the written bytes and the final actions.
fn run(o: &mut Orchestrator, outcome: bool) -> (Vec<usize>, Vec<Vec<u8>>, Vec<Action>) {
    let mut applied = Vec::new();
    let mut written = Vec::new();
    let mut ends = Vec::new();
    for _ in 0..100 {
        match o.next_action() {
            Action::Apply { index } => {
                applied.push(index);
                written.push(o.record_outcome(outcome, now()));
            }
            Action::Done => break,
            other => ends.push(other),
        }
    }
    (applied, written, ends)
}

#[test]
fn no_records_means_nothing_to_do() {
    let mut o = Orchestrator::new(Vec::new(), false);
    let (applied, written, ends) = run(&mut o, true);
    assert!(applied.is_empty());
    assert!(written.is_empty());
    assert_eq!(ends, vec![Action::Exit { stall_us: NOTHING_TO_DO_STALL_US }]);
    assert_eq!(NOTHING_TO_DO_STALL_US, 10_000_000);
}

#[test]
fn successful_apply_is_recorded_then_reset_once() {
    let mut o = Orchestrator::new(vec![entry("fwupd-a-0", STATUS_ATTEMPT_UPDATE)], false);
    let (applied, written, ends) = run(&mut o, true);
    assert_eq!(applied, vec![0]);
    assert_eq!(written.len(), 1);
    let info = decode(&written[0]).unwrap();
    assert_eq!(info.status, STATUS_ATTEMPT_UPDATE | STATUS_ATTEMPTED | STATUS_SUCCEEDED);
    assert_eq!(info.status & STATUS_FAILED, 0);
    assert_eq!(info.time_attempted, now());
    assert_eq!(info.device_path, vec![0x7f, 0xff, 4, 0]);
    assert_eq!(info.capsule_flags, 0x50000);
    assert_eq!(ends, vec![Action::Reset { stall_us: RESET_STALL_US }]);
    assert_eq!(o.entries[0].info.status, info.status);
}

#[test]
fn failed_apply_is_recorded_and_still_resets() {
    let mut o = Orchestrator::new(vec![entry("fwupd-a-0", STATUS_ATTEMPT_UPDATE)], false);
    let (applied, written, ends) = run(&mut o, false);
    assert_eq!(applied, vec![0]);
    let info = decode(&written[0]).unwrap();
    assert_eq!(info.status, STATUS_ATTEMPT_UPDATE | STATUS_ATTEMPTED | STATUS_FAILED);
    assert_eq!(info.status & STATUS_SUCCEEDED, 0);
    assert_eq!(ends, vec![Action::Reset { stall_us: RESET_STALL_US }]);
}

#[test]
fn attempted_records_are_not_applied_again() {
    let mut first = Orchestrator::new(vec![entry("fwupd-a-0", STATUS_ATTEMPT_UPDATE)], false);
    let (_, written, _) = run(&mut first, false);
    let info = decode(&written[0]).unwrap();
    let again = UpdateEntry { name: "fwupd-a-0".to_string(), attributes: 0x7, info };
    let mut second = Orchestrator::new(vec![again], false);
    let (applied, written, ends) = run(&mut second, true);
    assert!(applied.is_empty());
    assert!(written.is_empty());
    assert_eq!(ends, vec![Action::Reset { stall_us: RESET_STALL_US }]);
}

#[test]
fn only_pending_records_are_applied() {
    let entries = vec![
        entry("a", STATUS_ATTEMPT_UPDATE | STATUS_ATTEMPTED | STATUS_SUCCEEDED),
        entry("b", STATUS_ATTEMPT_UPDATE),
        entry("c", STATUS_ATTEMPT_UPDATE | STATUS_ATTEMPTED | STATUS_FAILED),
        entry("d", STATUS_ATTEMPT_UPDATE),
    ];
    let mut o = Orchestrator::new(entries, true);
    let (applied, written, ends) = run(&mut o, true);
    assert_eq!(applied, vec![1, 3]);
    assert_eq!(written.len(), 2);
    assert_eq!(ends, vec![Action::Reset { stall_us: RESET_STALL_US + VERBOSE_RESET_STALL_US }]);
    assert_eq!(o.entries[0].info.status, STATUS_ATTEMPT_UPDATE | STATUS_ATTEMPTED | STATUS_SUCCEEDED);
}

#[test]
fn verbose_reset_waits_thirty_five_seconds() {
    let mut o = Orchestrator::new(vec![entry("a", 0)], true);
    let (_, _, ends) = run(&mut o, true);
    assert_eq!(ends, vec![Action::Reset { stall_us: 35_000_000 }]);
}

#[test]
fn status_after_attempt_values() {
    assert_eq!(status_after_attempt(0x1, true), 0x7);
    assert_eq!(status_after_attempt(0x1, false), 0xb);
    assert_eq!(status_after_attempt(0x1 | 0x2 | 0x8, true), 0x7);
    assert_eq!(status_after_attempt(0xff00_0001, false), 0xff00_000b);
    assert!(is_attempted_status(0x2));
    assert!(!is_attempted_status(0x1 | 0x4 | 0x8));
}

#[test]
fn record_left_pending_is_unchanged_and_run_still_resets() {
    let mut o = Orchestrator::new(vec![entry("a", STATUS_ATTEMPT_UPDATE)], false);
    assert_eq!(o.next_action(), Action::Apply { index: 0 });
    o.leave_pending();
    assert_eq!(o.entries[0].info.status, STATUS_ATTEMPT_UPDATE);
    assert_eq!(o.entries[0].info.time_attempted, zero_time());
    assert_eq!(o.processed, 0);
    assert_eq!(o.next_action(), Action::Reset { stall_us: RESET_STALL_US });
    assert_eq!(o.next_action(), Action::Done);
}
