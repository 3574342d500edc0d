//! The live-process target's verified decision logic: pending-signal
//! bookkeeping, wait-outcome resolution, mapped-region lookup, and the
//! instruction window serialization. Nothing here traces a real process.

use dbgcore::errors::DebugError;
use dbgcore::errors::ProcessOp;
use dbgcore::errors::TerminationCause;
use dbgcore::x86_64::le_bytes_of_qwords;
use dbgcore::x86_64::module_for_regions;
use dbgcore::x86_64::resolve_wait;
use dbgcore::x86_64::DebugeeX86_64;
use dbgcore::x86_64::MappedRegion;
use dbgcore::x86_64::ProcessX86_64;
use dbgcore::x86_64::WaitOutcome;

#[test]
fn deliverable_signal_is_taken_exactly_once() {
    let mut debuggee = DebugeeX86_64 { pid: 1, pending_signal: Some((true, 10)) };
    assert_eq!(debuggee.take_deliverable(), Some(10));
    assert_eq!(debuggee.pending_signal, None);
    // a subsequent step with no new stop-signal carries no signal
    assert_eq!(debuggee.take_deliverable(), None);
    assert_eq!(debuggee.pending_signal, None);
}

#[test]
fn non_deliverable_signal_is_left_pending() {
    let mut debuggee = DebugeeX86_64 { pid: 1, pending_signal: Some((false, 17)) };
    assert_eq!(debuggee.take_deliverable(), None);
    assert_eq!(debuggee.pending_signal, Some((false, 17)));
}

#[test]
fn stop_records_signal_as_not_yet_deliverable() {
    let (r, pending) = resolve_wait(None, WaitOutcome::Stopped(5));
    assert_eq!(r, Ok(()));
    assert_eq!(pending, Some((false, 5)));
}

#[test]
fn still_alive_keeps_the_pending_record() {
    let (r, pending) = resolve_wait(Some((false, 9)), WaitOutcome::StillAlive);
    assert_eq!(r, Ok(()));
    assert_eq!(pending, Some((false, 9)));
}

#[test]
fn exited_debuggee_is_a_termination_error() {
    let (r, pending) = resolve_wait(None, WaitOutcome::Exited(3));
    assert_eq!(
        r,
        Err(DebugError::DebuggeeTerminated { cause: TerminationCause::Exited(3) })
    );
    assert_eq!(pending, None);
}

#[test]
fn killed_debuggee_is_a_termination_error() {
    let (r, _) = resolve_wait(None, WaitOutcome::Signaled(9));
    assert_eq!(
        r,
        Err(DebugError::DebuggeeTerminated { cause: TerminationCause::KilledBySignal(9) })
    );
}

#[test]
fn failed_wait_is_a_process_control_error() {
    let (r, _) = resolve_wait(None, WaitOutcome::WaitFailed(10));
    assert_eq!(
        r,
        Err(DebugError::ProcessControlFailure { operation: ProcessOp::Wait, errno: 10 })
    );
}

#[test]
fn module_lookup_answers_with_first_containing_region() {
    let regions = vec![
        MappedRegion { start: 0x1000, size: 0x1000, filename: Some("libone".to_string()) },
        MappedRegion { start: 0x2000, size: 0x1000, filename: Some("libtwo".to_string()) },
    ];
    assert_eq!(module_for_regions(&regions, 0x1800), Some("libone".to_string()));
    assert_eq!(module_for_regions(&regions, 0x2000), Some("libtwo".to_string()));
    assert_eq!(module_for_regions(&regions, 0x3000), None);
}

#[test]
fn module_lookup_region_bounds_are_half_open() {
    let regions = vec![MappedRegion {
        start: 0x4000,
        size: 0x100,
        filename: Some("lib".to_string()),
    }];
    assert_eq!(module_for_regions(&regions, 0x3fff), None);
    assert_eq!(module_for_regions(&regions, 0x4000), Some("lib".to_string()));
    assert_eq!(module_for_regions(&regions, 0x40ff), Some("lib".to_string()));
    assert_eq!(module_for_regions(&regions, 0x4100), None);
}

#[test]
fn module_lookup_answer_is_the_first_region_even_unnamed() {
    let regions = vec![
        MappedRegion { start: 0x1000, size: 0x1000, filename: None },
        MappedRegion { start: 0x1000, size: 0x1000, filename: Some("named".to_string()) },
    ];
    // the first containing region answers, even with no backing file
    assert_eq!(module_for_regions(&regions, 0x1400), None);
}

#[test]
fn process_handle_keeps_its_pid() {
    let process = ProcessX86_64::new(4242);
    assert_eq!(process.pid(), 4242);
}

#[test]
fn qword_serialization_is_little_endian() {
    let bytes = le_bytes_of_qwords(0x0807_0605_0403_0201, 0x100f_0e0d_0c0b_0a09);
    assert_eq!(
        bytes,
        [1, 2, 3, 4, 5, 6, 7, 8, 9, 0x0a, 0x0b, 0x0c, 0x0d, 0x0e, 0x0f, 0x10]
    );
}
