//! The two execution contracts every target answers to: the instruction
//! cycle (decode one instruction, advance machine state by one instruction)
//! and the breakpoint/watch protocol (attach, step, run, register stop
//! conditions).

use vstd::prelude::*;

use crate::errors::DebugError;

verus! {

/// What a `run` call ended with.
#[derive(Debug, Clone, PartialEq, Eq)]
pub enum RunResult {
    /// Stepped without evaluating any stop condition. The live-process
    /// target's one-shot `run` ends this way.
    Stepped,
    /// A registered break condition was satisfied after a step.
    HitBreakCondition,
    /// A step failed; the error says how.
    ExecutionError(DebugError),
}

/// The instruction cycle contract: how any architecture decodes the
/// instruction at the current instruction pointer and advances machine
/// state by one instruction.
pub trait MCU {
    /// The architecture's address width.
    type Addr;

    /// Well-formedness of the machine state; established at construction,
    /// preserved by every operation.
    spec fn mcu_wf(&self) -> bool;

    /// Advance the machine by one instruction. A disabled chip is a
    /// permanent no-op; a decode failure is fatal for this call only.
    fn emulate(&mut self) -> (r: Result<(), DebugError>)
        requires
            old(self).mcu_wf(),
        ensures
            final(self).mcu_wf(),
    ;

    /// Decode the instruction at the current instruction pointer without
    /// mutating state, reporting its encoded length in bytes.
    fn decode(&self) -> (r: Result<u16, DebugError>)
        requires
            self.mcu_wf(),
    ;
}

/// The breakpoint/watch protocol: a session is obtained only by attaching
/// to a target, then driven through `single_step` or `run`, with ordered
/// collections of registered break conditions and watches.
pub trait DebugTarget<T>: Sized {
    type WatchTarget;
    type BreakCondition;

    /// Well-formedness of the session state.
    spec fn wf(&self) -> bool;

    /// What `attach` needs of the target it binds to.
    spec fn attachable(target: &T) -> bool;

    /// What a caller must guarantee of a break condition before asking to
    /// register it (a caller-supplied predicate, say, must be callable on
    /// every machine state).
    spec fn cond_ok(break_cond: &Self::BreakCondition) -> bool;

    /// Bind a session to a target, with empty breakpoint and watch sets.
    fn attach(target: T) -> (r: Result<Self, DebugError>)
        requires
            Self::attachable(&target),
        ensures
            r matches Ok(s) ==> s.wf(),
    ;

    /// Exactly one unit of forward progress on the bound target.
    fn single_step(&mut self) -> (r: Result<(), DebugError>)
        requires
            old(self).wf(),
        ensures
            final(self).wf(),
    ;

    /// Step, then keep stepping until a registered break condition is
    /// satisfied or a step fails.
    fn run(&mut self) -> (r: RunResult)
        requires
            old(self).wf(),
        ensures
            final(self).wf(),
    ;

    /// Append a watch; fails with an unsupported-kind error when the bound
    /// target has no backing for the watch's variant.
    fn add_watch(&mut self, watch: Self::WatchTarget) -> (r: Result<(), DebugError>)
        requires
            old(self).wf(),
        ensures
            final(self).wf(),
    ;

    /// Append a break condition; fails with an unsupported-kind error when
    /// the bound target has no backing for the condition's variant.
    fn add_break_condition(&mut self, break_cond: Self::BreakCondition) -> (r: Result<
        (),
        DebugError,
    >)
        requires
            old(self).wf(),
            Self::cond_ok(&break_cond),
        ensures
            final(self).wf(),
    ;
}

} // verus!
