//! The live-process x86-64 target: attach/detach through OS trace
//! primitives, hardware single-stepping with exactly-once redelivery of
//! pending signals, register and mapped-region access, and the glue the
//! process-memory scanner needs.

use nix::sys::ptrace;
use nix::unistd::Pid;
use vstd::prelude::*;

use crate::debug::DebugTarget;
use crate::debug::RunResult;
use crate::errors::DebugError;
use crate::errors::ProcessOp;
use crate::errors::TerminationCause;

verus! {

/// A handle on a process to be debugged, named by its OS process id.
#[derive(Debug, Clone, Copy)]
pub struct ProcessX86_64 {
    pid: i32,
}

/// One mapped region of a process's virtual address space: start
/// address, size in bytes, and the backing file's name when there is
/// one. Transient: recomputed from the OS on demand, never cached.
#[derive(Debug, Clone, PartialEq, Eq)]
pub struct MappedRegion {
    pub start: usize,
    pub size: usize,
    pub filename: Option<String>,
}

/// The full x86-64 register block as the OS reports it, in its
/// conventional layout.
#[derive(Debug)]
pub struct Regs {
    r15: u64,
    r14: u64,
    r13: u64,
    r12: u64,
    rbp: u64,
    rbx: u64,
    r11: u64,
    r10: u64,
    r9: u64,
    r8: u64,
    rax: u64,
    rcx: u64,
    rdx: u64,
    rsi: u64,
    rdi: u64,
    orig_rax: u64,
    pub rip: u64,
    cs: u64,
    eflags: u64,
    pub rsp: u64,
    ss: u64,
    fs_base: u64,
    gs_base: u64,
    ds: u64,
    es: u64,
    fs: u64,
    gs: u64,
}

/// What one blocking wait on the debuggee reported.
#[derive(Debug, Clone, Copy, PartialEq, Eq)]
pub enum WaitOutcome {
    /// The debuggee stopped on the given signal.
    Stopped(i32),
    /// The debuggee exited with the given code; it is gone.
    Exited(i32),
    /// The debuggee was killed by the given signal; it is gone.
    Signaled(i32),
    /// No observable state change.
    StillAlive,
    /// The wait call itself failed with the given OS error code.
    WaitFailed(i32),
    /// A report outside the outcomes this target interprets.
    Other,
}

/// Relies on nix::sys::ptrace::attach: requests OS trace-attach on the
/// process; nothing is promised of the outcome.
#[verifier::external_body]
fn ptrace_attach_raw(pid: i32) -> (r: Result<(), i32>) {
    match ptrace::attach(Pid::from_raw(pid)) {
        Ok(()) => Ok(()),
        Err(e) => Err(e as i32),
    }
}

/// Relies on nix::sys::ptrace::step: requests one hardware single step,
/// delivering the given signal number if any; nothing is promised of the
/// outcome.
#[verifier::external_body]
fn ptrace_step_raw(pid: i32, sig: Option<i32>) -> (r: Result<(), i32>) {
    let signal = match sig {
        Some(n) => match nix::sys::signal::Signal::try_from(n) {
            Ok(s) => Some(s),
            Err(e) => return Err(e as i32),
        },
        None => None,
    };
    match ptrace::step(Pid::from_raw(pid), signal) {
        Ok(()) => Ok(()),
        Err(e) => Err(e as i32),
    }
}

/// Relies on nix::sys::ptrace::detach: releases tracing control without
/// delivering a signal; nothing is promised of the outcome.
#[verifier::external_body]
fn ptrace_detach_raw(pid: i32) -> (r: Result<(), i32>) {
    match ptrace::detach(Pid::from_raw(pid), None) {
        Ok(()) => Ok(()),
        Err(e) => Err(e as i32),
    }
}

/// Relies on nix::sys::ptrace::getregs: reads the debuggee's full
/// register block in one shot; nothing is promised of the values.
#[verifier::external_body]
fn ptrace_getregs_raw(pid: i32) -> (r: Result<Regs, i32>) {
    let u = ptrace::getregs(Pid::from_raw(pid)).map_err(|e| e as i32)?;
    Ok(Regs {
        r15: u.r15, r14: u.r14, r13: u.r13, r12: u.r12, rbp: u.rbp, rbx: u.rbx,
        r11: u.r11, r10: u.r10, r9: u.r9, r8: u.r8, rax: u.rax, rcx: u.rcx,
        rdx: u.rdx, rsi: u.rsi, rdi: u.rdi, orig_rax: u.orig_rax, rip: u.rip,
        cs: u.cs, eflags: u.eflags, rsp: u.rsp, ss: u.ss, fs_base: u.fs_base,
        gs_base: u.gs_base, ds: u.ds, es: u.es, fs: u.fs, gs: u.gs,
    })
}

/// Relies on nix::sys::wait::waitpid: blocks until the OS reports a
/// state change of the debuggee; each report variant is carried over
/// one to one, and nothing is promised of which one comes.
#[verifier::external_body]
fn waitpid_raw(pid: i32) -> (r: WaitOutcome) {
    match nix::sys::wait::waitpid(Pid::from_raw(pid), None) {
        Ok(nix::sys::wait::WaitStatus::Stopped(_, signal)) => WaitOutcome::Stopped(signal as i32),
        Ok(nix::sys::wait::WaitStatus::Exited(_, code)) => WaitOutcome::Exited(code),
        Ok(nix::sys::wait::WaitStatus::Signaled(_, signal, _)) => WaitOutcome::Signaled(
            signal as i32,
        ),
        Ok(nix::sys::wait::WaitStatus::StillAlive) => WaitOutcome::StillAlive,
        Ok(_) => WaitOutcome::Other,
        Err(e) => WaitOutcome::WaitFailed(e as i32),
    }
}

/// Relies on nix::sys::signal::kill: sends the given signal number to
/// the process; nothing is promised of the outcome.
#[verifier::external_body]
fn send_signal_raw(pid: i32, sig: i32) -> (r: Result<(), i32>) {
    let signal = match nix::sys::signal::Signal::try_from(sig) {
        Ok(s) => s,
        Err(e) => return Err(e as i32),
    };
    match nix::sys::signal::kill(Pid::from_raw(pid), signal) {
        Ok(()) => Ok(()),
        Err(e) => Err(e as i32),
    }
}

/// Relies on proc_maps::get_process_maps: enumerates the process's
/// current mapped regions; each region's start, size and backing-file
/// name are carried over one to one, and nothing is promised of what
/// the OS reports.
#[verifier::external_body]
fn list_regions_raw(pid: i32) -> (r: Result<Vec<MappedRegion>, i32>) {
    match proc_maps::get_process_maps(pid as proc_maps::Pid) {
        Ok(maps) => Ok(
            maps.into_iter().map(
                |m| MappedRegion {
                    start: m.start(),
                    size: m.size(),
                    filename: m.filename().map(|p| p.to_string_lossy().into_owned()),
                },
            ).collect(),
        ),
        Err(e) => Err(e.raw_os_error().unwrap_or(0)),
    }
}

/// `address` lies inside the region.
pub open spec fn region_contains(r: MappedRegion, address: usize) -> bool {
    r.start <= address && address - r.start < r.size
}

/// The backing-file name of the first listed region containing
/// `address`: what a module lookup over a fixed region list answers.
pub open spec fn module_for_from(regions: Seq<MappedRegion>, address: usize, i: nat) -> Option<
    String,
>
    decreases regions.len() - i,
{
    if i >= regions.len() {
        None
    } else if region_contains(regions[i as int], address) {
        regions[i as int].filename
    } else {
        module_for_from(regions, address, i + 1)
    }
}

/// The backing-file name of the first region in the list that contains
/// `address`; the answer is that region's name even when it has none.
pub fn module_for_regions(regions: &Vec<MappedRegion>, address: usize) -> (r: Option<String>)
    ensures
        r == module_for_from(regions@, address, 0),
{
    let mut i: usize = 0;
    while i < regions.len()
        invariant
            i <= regions@.len(),
            module_for_from(regions@, address, i as nat) == module_for_from(regions@, address, 0),
        decreases regions@.len() - i,
    {
        let region = &regions[i];
        if region.start <= address && address - region.start < region.size {
            let name = match &region.filename {
                Some(s) => Some(s.clone()),
                None => None,
            };
            return name;
        }
        i += 1;
    }
    None
}

impl ProcessX86_64 {
    /// The process id this handle names.
    pub closed spec fn pid_spec(&self) -> i32 {
        self.pid
    }

    /// A handle on the process with the given id.
    pub fn new(pid: i32) -> (r: ProcessX86_64)
        ensures
            r.pid_spec() == pid,
    {
        ProcessX86_64 { pid }
    }

    /// The process id, for callers that open OS channels of their own.
    pub fn pid(&self) -> (r: i32)
        ensures
            r == self.pid_spec(),
    {
        self.pid
    }

    /// The process's current mapped regions, read fresh from the OS.
    pub fn mem_maps(&mut self) -> (r: Result<Vec<MappedRegion>, DebugError>)
        ensures
            final(self).pid_spec() == old(self).pid_spec(),
            r matches Err(e) ==> e matches DebugError::ProcessControlFailure {
                operation: ProcessOp::ListRegions,
                ..
            },
    {
        match list_regions_raw(self.pid) {
            Ok(regions) => Ok(regions),
            Err(e) => Err(
                DebugError::ProcessControlFailure { operation: ProcessOp::ListRegions, errno: e },
            ),
        }
    }

    /// The backing file of the mapping that covers `address` right now,
    /// if the first such mapping names one.
    pub fn module_for(&mut self, address: usize) -> (r: Result<Option<String>, DebugError>)
        ensures
            final(self).pid_spec() == old(self).pid_spec(),
            r matches Err(e) ==> e matches DebugError::ProcessControlFailure {
                operation: ProcessOp::ListRegions,
                ..
            },
    {
        let regions = match self.mem_maps() {
            Ok(regions) => regions,
            Err(e) => return Err(e),
        };
        Ok(module_for_regions(&regions, address))
    }

    /// Send a POSIX signal to the process, independent of trace state.
    pub fn kill(&self, signal: i32) -> (r: Result<(), DebugError>)
        ensures
            r matches Err(e) ==> e matches DebugError::ProcessControlFailure {
                operation: ProcessOp::SendSignal,
                ..
            },
    {
        match send_signal_raw(self.pid, signal) {
            Ok(()) => Ok(()),
            Err(e) => Err(
                DebugError::ProcessControlFailure { operation: ProcessOp::SendSignal, errno: e },
            ),
        }
    }
}

/// The signal a step request must deliver: the pending one, only while
/// it is marked deliverable.
pub open spec fn deliverable(pending: Option<(bool, i32)>) -> Option<i32> {
    match pending {
        Some((true, s)) => Some(s),
        _ => None,
    }
}

/// The pending record after its deliverable signal is taken: consumed
/// exactly when it was deliverable, untouched otherwise.
pub open spec fn after_take(pending: Option<(bool, i32)>) -> Option<(bool, i32)> {
    match pending {
        Some((true, _)) => None,
        _ => pending,
    }
}

/// A debugging session on a live process: the traced process id and the
/// at-most-one pending signal, recorded when a wait reports a stop and
/// consumed by the next resume.
#[derive(Debug)]
pub struct DebugeeX86_64 {
    pub pid: i32,
    pub pending_signal: Option<(bool, i32)>,
}

/// How a wait report resolves against the pending-signal record: a stop
/// records its signal as pending but not yet deliverable; no observable
/// change keeps the record; a gone debuggee or a failed wait is an
/// error and keeps the record.
pub fn resolve_wait(pending: Option<(bool, i32)>, outcome: WaitOutcome) -> (r: (
    Result<(), DebugError>,
    Option<(bool, i32)>,
))
    ensures
        outcome matches WaitOutcome::Stopped(s) ==> r == (
            Ok::<(), DebugError>(()),
            Some((false, s)),
        ),
        outcome == WaitOutcome::StillAlive ==> r == (Ok::<(), DebugError>(()), pending),
        outcome matches WaitOutcome::Exited(c) ==> r == (
            Err::<(), DebugError>(
                DebugError::DebuggeeTerminated { cause: TerminationCause::Exited(c) },
            ),
            pending,
        ),
        outcome matches WaitOutcome::Signaled(s) ==> r == (
            Err::<(), DebugError>(
                DebugError::DebuggeeTerminated { cause: TerminationCause::KilledBySignal(s) },
            ),
            pending,
        ),
        outcome matches WaitOutcome::WaitFailed(e) ==> r == (
            Err::<(), DebugError>(
                DebugError::ProcessControlFailure { operation: ProcessOp::Wait, errno: e },
            ),
            pending,
        ),
        outcome == WaitOutcome::Other ==> r == (
            Err::<(), DebugError>(
                DebugError::ProcessControlFailure { operation: ProcessOp::Wait, errno: 0 },
            ),
            pending,
        ),
{
    match outcome {
        WaitOutcome::Stopped(s) => (Ok(()), Some((false, s))),
        WaitOutcome::StillAlive => (Ok(()), pending),
        WaitOutcome::Exited(c) => (
            Err(DebugError::DebuggeeTerminated { cause: TerminationCause::Exited(c) }),
            pending,
        ),
        WaitOutcome::Signaled(s) => (
            Err(DebugError::DebuggeeTerminated { cause: TerminationCause::KilledBySignal(s) }),
            pending,
        ),
        WaitOutcome::WaitFailed(e) => (
            Err(DebugError::ProcessControlFailure { operation: ProcessOp::Wait, errno: e }),
            pending,
        ),
        WaitOutcome::Other => (
            Err(DebugError::ProcessControlFailure { operation: ProcessOp::Wait, errno: 0 }),
            pending,
        ),
    }
}

impl DebugeeX86_64 {
    /// Take the deliverable signal, if any, clearing the pending record
    /// exactly when one is taken: the heart of exactly-once redelivery.
    pub fn take_deliverable(&mut self) -> (r: Option<i32>)
        ensures
            final(self).pid == old(self).pid,
            r == deliverable(old(self).pending_signal),
            final(self).pending_signal == after_take(old(self).pending_signal),
    {
        match self.pending_signal {
            Some((true, s)) => {
                self.pending_signal = None;
                Some(s)
            },
            _ => None,
        }
    }

    /// Block until the OS reports a state change of the debuggee and
    /// resolve it against the pending-signal record. Whatever comes
    /// back, a signal only ever becomes deliverable by an explicit
    /// caller decision, never here.
    fn wait(&mut self) -> (r: Result<(), DebugError>)
        ensures
            final(self).pid == old(self).pid,
            final(self).pending_signal == old(self).pending_signal || (final(self).pending_signal
                matches Some((false, _))),
            final(self).pending_signal matches Some((d, s)) ==> (!d || old(self).pending_signal
                == Some((true, s))),
            r matches Err(e) ==> final(self).pending_signal == old(self).pending_signal && (
            e matches DebugError::DebuggeeTerminated { .. } || e
                matches DebugError::ProcessControlFailure { operation: ProcessOp::Wait, .. }),
    {
        let outcome = waitpid_raw(self.pid);
        let (r, pending) = resolve_wait(self.pending_signal, outcome);
        self.pending_signal = pending;
        r
    }

    /// Read the debuggee's full register block from the OS in one shot.
    pub fn regs(&mut self) -> (r: Result<Regs, DebugError>)
        ensures
            final(self).pid == old(self).pid,
            final(self).pending_signal == old(self).pending_signal,
            r matches Err(e) ==> e matches DebugError::ProcessControlFailure {
                operation: ProcessOp::ReadRegisters,
                ..
            },
    {
        match ptrace_getregs_raw(self.pid) {
            Ok(regs) => Ok(regs),
            Err(e) => Err(
                DebugError::ProcessControlFailure {
                    operation: ProcessOp::ReadRegisters,
                    errno: e,
                },
            ),
        }
    }

    /// Release tracing control, returning the debuggee to normal
    /// scheduling.
    pub fn detach(&mut self) -> (r: Result<(), DebugError>)
        ensures
            final(self).pid == old(self).pid,
            final(self).pending_signal == old(self).pending_signal,
            r matches Err(e) ==> e matches DebugError::ProcessControlFailure {
                operation: ProcessOp::Detach,
                ..
            },
    {
        match ptrace_detach_raw(self.pid) {
            Ok(()) => Ok(()),
            Err(e) => Err(
                DebugError::ProcessControlFailure { operation: ProcessOp::Detach, errno: e },
            ),
        }
    }
}

impl DebugTarget<ProcessX86_64> for DebugeeX86_64 {
    type WatchTarget = ();

    type BreakCondition = ();

    open spec fn wf(&self) -> bool {
        true
    }

    open spec fn attachable(target: &ProcessX86_64) -> bool {
        true
    }

    open spec fn cond_ok(break_cond: &()) -> bool {
        true
    }

    /// Request OS trace-attach on the process, then block until the OS
    /// reports it stopped; failure aborts session creation.
    fn attach(process: ProcessX86_64) -> (r: Result<Self, DebugError>)
        ensures
            r matches Ok(d) ==> d.pid == process.pid_spec() && d.pending_signal is None,
            r matches Err(e) ==> (e matches DebugError::ProcessControlFailure {
                operation: ProcessOp::Attach,
                ..
            } || e matches DebugError::ProcessControlFailure {
                operation: ProcessOp::Wait,
                ..
            }),
    {
        let pid = process.pid();
        match ptrace_attach_raw(pid) {
            Ok(()) => {},
            Err(e) => {
                return Err(
                    DebugError::ProcessControlFailure { operation: ProcessOp::Attach, errno: e },
                );
            },
        }
        match waitpid_raw(pid) {
            WaitOutcome::WaitFailed(e) => Err(
                DebugError::ProcessControlFailure { operation: ProcessOp::Wait, errno: e },
            ),
            _ => Ok(DebugeeX86_64 { pid, pending_signal: None }),
        }
    }

    /// One hardware single step: the deliverable pending signal, if any,
    /// rides along with the step request and is cleared; then a blocking
    /// wait interprets the resulting state change. Afterwards no signal
    /// is ever left marked deliverable.
    fn single_step(&mut self) -> (r: Result<(), DebugError>)
        ensures
            final(self).pid == old(self).pid,
            !(final(self).pending_signal matches Some((true, _))),
            final(self).pending_signal == after_take(old(self).pending_signal) || (final(self).pending_signal matches Some((false, _))),
            r matches Err(e) ==> (e matches DebugError::ProcessControlFailure { .. } || e
                matches DebugError::DebuggeeTerminated { .. }),
    {
        let sig = self.take_deliverable();
        match ptrace_step_raw(self.pid, sig) {
            Ok(()) => self.wait(),
            Err(e) => Err(
                DebugError::ProcessControlFailure { operation: ProcessOp::Step, errno: e },
            ),
        }
    }

    /// The live target's one-shot run: issue one step carrying the
    /// deliverable pending signal, if any, and report success without a
    /// breakpoint-evaluation loop.
    fn run(&mut self) -> (r: RunResult)
        ensures
            final(self).pid == old(self).pid,
            final(self).pending_signal == after_take(old(self).pending_signal),
            r == RunResult::Stepped || r matches RunResult::ExecutionError(
                DebugError::ProcessControlFailure { operation: ProcessOp::Step, .. },
            ),
    {
        let sig = self.take_deliverable();
        match ptrace_step_raw(self.pid, sig) {
            Ok(()) => RunResult::Stepped,
            Err(e) => RunResult::ExecutionError(
                DebugError::ProcessControlFailure { operation: ProcessOp::Step, errno: e },
            ),
        }
    }

    /// Watches have no backing on the live target yet: registration is
    /// refused rather than silently accepted as a no-op.
    fn add_watch(&mut self, watch: ()) -> (r: Result<(), DebugError>)
        ensures
            final(self).pid == old(self).pid,
            final(self).pending_signal == old(self).pending_signal,
            r == Err::<(), DebugError>(
                DebugError::UnsupportedConditionKind {
                    kind: crate::errors::ConditionKind::MemoryLocationWatch,
                },
            ),
    {
        Err(
            DebugError::UnsupportedConditionKind {
                kind: crate::errors::ConditionKind::MemoryLocationWatch,
            },
        )
    }

    /// Break conditions have no backing on the live target yet:
    /// registration is refused rather than silently accepted as a no-op.
    fn add_break_condition(&mut self, break_cond: ()) -> (r: Result<(), DebugError>)
        ensures
            final(self).pid == old(self).pid,
            final(self).pending_signal == old(self).pending_signal,
            r == Err::<(), DebugError>(
                DebugError::UnsupportedConditionKind {
                    kind: crate::errors::ConditionKind::IpValue,
                },
            ),
    {
        Err(
            DebugError::UnsupportedConditionKind { kind: crate::errors::ConditionKind::IpValue },
        )
    }
}

/// Signal exactly-once law: once a deliverable signal is recorded, the
/// very next take hands exactly that signal to the step request and
/// clears the record, and a second take (with no new stop recorded in
/// between) hands over nothing.
pub proof fn lemma_signal_exactly_once(s: i32)
    ensures
        deliverable(Some((true, s))) == Some(s),
        after_take(Some((true, s))) == None::<(bool, i32)>,
        deliverable(after_take(Some((true, s)))) == None::<i32>,
        forall|p: Option<(bool, i32)>| #[trigger] deliverable(after_take(p)) is None,
{
}

/// A signal recorded by a stop is pending but not yet deliverable, so a
/// step that follows it carries no signal until a caller marks it
/// deliverable.
pub proof fn lemma_recorded_signal_not_deliverable(s: i32)
    ensures
        deliverable(Some((false, s))) == None::<i32>,
        after_take(Some((false, s))) == Some((false, s)),
{
}

/// The little-endian serialization of two machine words read at the
/// instruction pointer: byte `i` of the window is byte `i % 8` of the
/// word it falls in.
pub open spec fn le_byte_of(w: u64, i: int) -> u8 {
    (w >> (8 * i) & 0xff) as u8
}

/// Serialize two 64-bit words into a 16-byte little-endian window: the
/// low word fills the first eight bytes, the high word the rest.
pub fn le_bytes_of_qwords(low: u64, high: u64) -> (r: [u8; 16])
    ensures
        forall|i: int| 0 <= i < 8 ==> r@[i] == le_byte_of(low, i),
        forall|i: int| 8 <= i < 16 ==> r@[i] == le_byte_of(high, i - 8),
{
    let r: [u8; 16] = [
        (low & 0xff) as u8,
        ((low >> 8) & 0xff) as u8,
        ((low >> 16) & 0xff) as u8,
        ((low >> 24) & 0xff) as u8,
        ((low >> 32) & 0xff) as u8,
        ((low >> 40) & 0xff) as u8,
        ((low >> 48) & 0xff) as u8,
        ((low >> 56) & 0xff) as u8,
        (high & 0xff) as u8,
        ((high >> 8) & 0xff) as u8,
        ((high >> 16) & 0xff) as u8,
        ((high >> 24) & 0xff) as u8,
        ((high >> 32) & 0xff) as u8,
        ((high >> 40) & 0xff) as u8,
        ((high >> 48) & 0xff) as u8,
        ((high >> 56) & 0xff) as u8,
    ];
    proof {
        assert forall|i: int| 0 <= i < 8 implies r@[i] == le_byte_of(low, i) by {
            assert(low & 0xff == low >> 0 & 0xff) by (bit_vector);
        }
        assert forall|i: int| 8 <= i < 16 implies r@[i] == le_byte_of(high, i - 8) by {
            assert(high & 0xff == high >> 0 & 0xff) by (bit_vector);
        }
    }
    r
}

} // verus!
