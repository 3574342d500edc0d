//! The software-emulated MSP430 target: a register file, a flat 64 KiB
//! address space, a program loader driven by the reset vector, and the
//! fetch-decode cycle, together with the breakpoint/watch protocol bound
//! to it.

use vstd::prelude::*;

use crate::debug::DebugTarget;
use crate::debug::MCU;
use crate::debug::RunResult;
use crate::errors::ConditionKind;
use crate::errors::DebugError;
use crate::memory::MemoryRepr;
use crate::memory::PRIMARY_SECTION;

verus! {

/// What loading a program observed: either the primary section was
/// written to memory, or the image carried no code at all (accepted, but
/// worth surfacing to the caller).
#[derive(Debug, Clone, Copy, PartialEq, Eq)]
pub enum LoadNote {
    Loaded,
    NoCode,
}

/// Memory after copying `img` to address 0: the first `img.len()` bytes
/// are the image, the rest is untouched.
pub open spec fn loaded_mem(old_mem: Seq<u8>, img: Seq<u8>) -> Seq<u8> {
    Seq::new(old_mem.len(), |i: int| if i < img.len() { img[i] } else { old_mem[i] })
}

/// The reset vector: the big-endian 16-bit value stored in the top two
/// bytes of the address space, the byte at the lower address being the
/// high byte.
pub open spec fn reset_vector(mem: Seq<u8>) -> u16 {
    (mem[0xfffe] as int * 256 + mem[0xffff] as int) as u16
}

/// Two machines with bitwise-identical observable state.
pub open spec fn same_state(a: CPU, b: CPU) -> bool {
    a.registers@ == b.registers@ && a.memory@ == b.memory@ && a.disable == b.disable
}

/// What the external instruction decoder returns on a given byte
/// sequence: the encoded length of the instruction decoded from the
/// start of the bytes, or nothing when no known encoding matches.
pub uninterp spec fn decode_of(bytes: Seq<u8>) -> Option<u16>;

/// The byte sequence the decoder is shown: memory from the instruction
/// pointer to the end of the address space.
pub open spec fn fetch_window(c: CPU) -> Seq<u8> {
    c.memory@.skip(c.ip_spec() as int)
}

/// The diagnostic window reported with a decode failure: up to four raw
/// bytes starting at the instruction pointer, cut off at the end of the
/// address space.
pub open spec fn decode_window(c: CPU) -> Seq<u8> {
    c.memory@.subrange(
        c.ip_spec() as int,
        if c.ip_spec() as int + 4 <= MEM_SIZE {
            c.ip_spec() as int + 4
        } else {
            MEM_SIZE as int
        },
    )
}

/// The instruction pointer advanced by `l` bytes, wrapping at the top of
/// the address space.
pub open spec fn ip_plus(a: u16, l: u16) -> u16 {
    if a + l > 0xffff {
        (a + l - 0x10000) as u16
    } else {
        (a + l) as u16
    }
}

/// How one emulation step relates post-state and result to pre-state: a
/// disabled chip is a successful no-op; a decode failure is reported and
/// changes nothing; a decoded instruction advances the instruction
/// pointer past its encoded length and touches nothing else.
pub open spec fn emulate_rel(pre: CPU, post: CPU, r: Result<(), DebugError>) -> bool {
    &&& (pre.disable ==> r == Ok::<(), DebugError>(()) && same_state(post, pre))
    &&& (!pre.disable ==> match decode_of(fetch_window(pre)) {
        Some(l) => r == Ok::<(), DebugError>(()) && post.memory@ == pre.memory@ && post.disable
            == pre.disable && post.registers@ == pre.registers@.update(
            0,
            ip_plus(pre.ip_spec(), l),
        ),
        None => (r matches Err(e) && e matches DebugError::DecodeFailure { address, window }
            && address == pre.ip_spec() && window@ == decode_window(pre)) && same_state(post, pre),
    })
}

/// Disabled-chip idempotence: once the chip-disable flag is set, any
/// number of consecutive emulation steps succeeds and leaves the
/// machine bitwise unchanged; here spelled out for two steps over the
/// step relation that `emulate` ensures.
pub proof fn lemma_disabled_chip_idempotent(
    pre: CPU,
    mid: CPU,
    post: CPU,
    r1: Result<(), DebugError>,
    r2: Result<(), DebugError>,
)
    requires
        pre.disable,
        emulate_rel(pre, mid, r1),
        emulate_rel(mid, post, r2),
    ensures
        r1 == Ok::<(), DebugError>(()),
        r2 == Ok::<(), DebugError>(()),
        same_state(post, pre),
{
}

/// Relies on yaxpeax_msp430::InstDecoder (with its default settings) and
/// yaxpeax_arch::LengthedInstruction::len: decoding reads nothing but the
/// bytes, so its outcome is a function of `mem[start..]` alone.
#[verifier::external_body]
fn decode_len_at(mem: &Vec<u8>, start: usize) -> (r: Option<u16>)
    requires
        start <= mem@.len(),
    ensures
        r == decode_of(mem@.skip(start as int)),
{
    let mut reader = yaxpeax_arch::U8Reader::new(&mem[start..]);
    let decoder = yaxpeax_msp430::InstDecoder::default();
    match yaxpeax_arch::Decoder::decode(&decoder, &mut reader) {
        Ok(inst) => Some(yaxpeax_arch::LengthedInstruction::len(&inst).to_const()),
        Err(_) => None,
    }
}

/// Size in bytes of the emulated target's flat address space: the full
/// space a 16-bit address can name.
pub const MEM_SIZE: usize = 0x10000;

/// The reset-vector sentinel meaning "no valid entry point": a chip whose
/// reset vector reads all-ones is considered absent, not started.
pub const NO_ENTRY_SENTINEL: u16 = 0xffff;

/// The emulated CPU: sixteen 16-bit registers (register 0 is the
/// instruction pointer), a flat byte-addressed memory, and the
/// chip-disable flag.
#[derive(Debug, Clone)]
pub struct CPU {
    pub registers: [u16; 16],
    pub memory: Vec<u8>,
    pub disable: bool,
}

impl CPU {
    /// Well-formed machine state: the memory buffer spans the full
    /// addressable space, so every 16-bit address is in bounds.
    pub open spec fn wf(&self) -> bool {
        self.memory@.len() == MEM_SIZE
    }

    /// The instruction pointer, by convention register 0.
    pub open spec fn ip_spec(&self) -> u16 {
        self.registers@[0]
    }

    /// Whether the chip-disable flag is set.
    pub open spec fn disabled_spec(&self) -> bool {
        self.disable
    }

    /// A zeroed machine: registers and memory all zero, chip enabled.
    pub fn new() -> (r: CPU)
        ensures
            r.wf(),
            forall|i: int| 0 <= i < 16 ==> r.registers@[i] == 0,
            forall|a: int| 0 <= a < MEM_SIZE ==> r.memory@[a] == 0,
            !r.disabled_spec(),
    {
        let mut memory: Vec<u8> = Vec::new();
        while memory.len() < MEM_SIZE
            invariant
                memory@.len() <= MEM_SIZE,
                forall|a: int| 0 <= a < memory@.len() ==> memory@[a] == 0,
            decreases MEM_SIZE - memory@.len(),
        {
            memory.push(0);
        }
        CPU { registers: [0u16; 16], memory, disable: false }
    }

    /// Read the instruction pointer.
    pub fn ip(&self) -> (r: u16)
        ensures
            r == self.ip_spec(),
    {
        self.registers[0]
    }

    /// Overwrite the instruction pointer.
    pub fn set_ip(&mut self, newval: u16)
        ensures
            final(self).registers@ == old(self).registers@.update(0, newval),
            final(self).memory == old(self).memory,
            final(self).disabled_spec() == old(self).disabled_spec(),
            final(self).wf() == old(self).wf(),
    {
        self.registers[0] = newval;
    }

    /// Bounds-checked read of one byte of memory. On a well-formed
    /// machine every 16-bit address is in bounds, so this never fails.
    pub fn get_byte_noupdate(&self, addr: u16) -> (r: Result<u8, DebugError>)
        ensures
            (addr as int) < self.memory@.len() ==> r == Ok::<u8, DebugError>(
                self.memory@[addr as int],
            ),
            (addr as int) >= self.memory@.len() ==> r == Err::<u8, DebugError>(
                DebugError::AddressOutOfRange { address: addr, capacity: self.memory@.len() as usize },
            ),
    {
        if (addr as usize) < self.memory.len() {
            Ok(self.memory[addr as usize])
        } else {
            Err(DebugError::AddressOutOfRange { address: addr, capacity: self.memory.len() })
        }
    }

    /// Read one byte, through any side effects a memory-mapped read may
    /// later acquire; today identical to the raw read.
    pub fn get_byte(&mut self, addr: u16) -> (r: Result<u8, DebugError>)
        ensures
            *final(self) == *old(self),
            (addr as int) < old(self).memory@.len() ==> r == Ok::<u8, DebugError>(
                old(self).memory@[addr as int],
            ),
            (addr as int) >= old(self).memory@.len() ==> r == Err::<u8, DebugError>(
                DebugError::AddressOutOfRange { address: addr, capacity: old(self).memory@.len() as usize },
            ),
    {
        self.get_byte_noupdate(addr)
    }

    /// Bounds-checked write of one byte of memory; out-of-range
    /// addressing fails and changes nothing.
    pub fn set_byte_noupdate(&mut self, addr: u16, what: u8) -> (r: Result<(), DebugError>)
        ensures
            final(self).registers == old(self).registers,
            final(self).disabled_spec() == old(self).disabled_spec(),
            (addr as int) < old(self).memory@.len() ==> r == Ok::<(), DebugError>(())
                && final(self).memory@ == old(self).memory@.update(addr as int, what),
            (addr as int) >= old(self).memory@.len() ==> r == Err::<(), DebugError>(
                DebugError::AddressOutOfRange {
                    address: addr,
                    capacity: old(self).memory@.len() as usize,
                },
            ) && final(self).memory == old(self).memory,
    {
        if (addr as usize) < self.memory.len() {
            self.memory.set(addr as usize, what);
            Ok(())
        } else {
            Err(DebugError::AddressOutOfRange { address: addr, capacity: self.memory.len() })
        }
    }

    /// Write one byte, through any side effects a memory-mapped write may
    /// later acquire; today identical to the raw write.
    pub fn set_byte(&mut self, addr: u16, what: u8) -> (r: Result<(), DebugError>)
        ensures
            final(self).registers == old(self).registers,
            final(self).disabled_spec() == old(self).disabled_spec(),
            (addr as int) < old(self).memory@.len() ==> r == Ok::<(), DebugError>(())
                && final(self).memory@ == old(self).memory@.update(addr as int, what),
            (addr as int) >= old(self).memory@.len() ==> r == Err::<(), DebugError>(
                DebugError::AddressOutOfRange {
                    address: addr,
                    capacity: old(self).memory@.len() as usize,
                },
            ) && final(self).memory == old(self).memory,
    {
        self.set_byte_noupdate(addr, what)
    }

    /// Whether the chip-disable flag is set: a disabled chip is a
    /// permanent no-op under emulation.
    pub fn is_disabled(&self) -> (r: bool)
        ensures
            r == self.disabled_spec(),
    {
        self.disable
    }

    /// Load a program image. The primary section is copied to address 0;
    /// an image larger than memory is rejected with `ImageTooLarge` and
    /// changes nothing; an image with no primary section is accepted and
    /// copies nothing. Loading then reads the big-endian reset vector at
    /// the top of the address space: the all-ones sentinel sets the
    /// chip-disable flag and leaves the instruction pointer untouched;
    /// any other value becomes the new instruction pointer.
    pub fn program(&mut self, program: MemoryRepr) -> (r: Result<LoadNote, DebugError>)
        requires
            old(self).wf(),
        ensures
            final(self).wf(),
            ({
                let s = program.sections@;
                let has = s.contains_key(PRIMARY_SECTION);
                let img = s[PRIMARY_SECTION]@;
                if has && img.len() > MEM_SIZE {
                    r == Err::<LoadNote, DebugError>(
                        DebugError::ImageTooLarge {
                            image_size: img.len() as usize,
                            capacity: MEM_SIZE,
                        },
                    ) && same_state(*final(self), *old(self))
                } else {
                    let m1 = if has {
                        loaded_mem(old(self).memory@, img)
                    } else {
                        old(self).memory@
                    };
                    let v = reset_vector(m1);
                    final(self).memory@ == m1 && r == Ok::<LoadNote, DebugError>(
                        if has {
                            LoadNote::Loaded
                        } else {
                            LoadNote::NoCode
                        },
                    ) && (if v == NO_ENTRY_SENTINEL {
                        final(self).disable && final(self).registers@ == old(self).registers@
                    } else {
                        final(self).disable == old(self).disable && final(self).registers@ == old(
                            self,
                        ).registers@.update(0, v)
                    })
                }
            }),
    {
        let ghost pre = *self;
        let has_code: bool;
        match program.sections.get(&PRIMARY_SECTION) {
            Some(data) => {
                if data.len() > self.memory.len() {
                    return Err(
                        DebugError::ImageTooLarge {
                            image_size: data.len(),
                            capacity: self.memory.len(),
                        },
                    );
                }
                let mut i: usize = 0;
                while i < data.len()
                    invariant
                        self.wf(),
                        i <= data@.len(),
                        data@.len() <= MEM_SIZE,
                        self.registers@ == pre.registers@,
                        self.disable == pre.disable,
                        forall|j: int| 0 <= j < i ==> self.memory@[j] == data@[j],
                        forall|j: int| i <= j < MEM_SIZE ==> self.memory@[j] == pre.memory@[j],
                    decreases data@.len() - i,
                {
                    let b = data[i];
                    self.memory.set(i, b);
                    i += 1;
                }
                proof {
                    assert(self.memory@ =~= loaded_mem(pre.memory@, data@));
                }
                has_code = true;
            },
            None => {
                has_code = false;
            },
        }
        let hi = self.memory[0xfffe];
        let lo = self.memory[0xffff];
        let initial_ip: u16 = (hi as u16) * 256 + (lo as u16);
        if initial_ip == NO_ENTRY_SENTINEL {
            self.disable = true;
        } else {
            self.set_ip(initial_ip);
        }
        if has_code {
            Ok(LoadNote::Loaded)
        } else {
            Ok(LoadNote::NoCode)
        }
    }

    /// Decode the instruction at the instruction pointer, reporting its
    /// encoded length; on failure the error names the faulting address
    /// and the raw bytes examined (a window of up to four bytes).
    pub fn decode(&self) -> (r: Result<u16, DebugError>)
        requires
            self.wf(),
        ensures
            decode_of(fetch_window(*self)) matches Some(l) ==> r == Ok::<u16, DebugError>(l),
            decode_of(fetch_window(*self)) is None ==> (r matches Err(e) && e matches
                DebugError::DecodeFailure { address, window } && address == self.ip_spec()
                && window@ == decode_window(*self)),
    {
        let start = self.ip() as usize;
        match decode_len_at(&self.memory, start) {
            Some(len) => Ok(len),
            None => {
                let end: usize = if start + 4 <= MEM_SIZE {
                    start + 4
                } else {
                    MEM_SIZE
                };
                let mut window: Vec<u8> = Vec::new();
                let mut i: usize = start;
                while i < end
                    invariant
                        self.wf(),
                        start <= i <= end,
                        end <= MEM_SIZE,
                        window@.len() == i - start,
                        forall|j: int|
                            0 <= j < window@.len() ==> window@[j] == self.memory@[start + j],
                    decreases end - i,
                {
                    let b = self.memory[i];
                    window.push(b);
                    i += 1;
                }
                proof {
                    assert(window@ =~= decode_window(*self));
                }
                Err(DebugError::DecodeFailure { address: self.ip(), window })
            },
        }
    }

    /// One instruction cycle. A disabled chip is a permanent, successful
    /// no-op. Otherwise the instruction at the instruction pointer is
    /// decoded: a decode failure is fatal for this call and changes
    /// nothing; a decoded instruction advances the instruction pointer
    /// past its encoded length (wrapping at the top of the address
    /// space) and touches nothing else.
    pub fn emulate(&mut self) -> (r: Result<(), DebugError>)
        requires
            old(self).wf(),
        ensures
            final(self).wf(),
            emulate_rel(*old(self), *final(self), r),
    {
        if self.disable {
            return Ok(());
        }
        match self.decode() {
            Ok(len) => {
                let new_ip = self.ip().wrapping_add(len);
                self.set_ip(new_ip);
                Ok(())
            },
            Err(e) => Err(e),
        }
    }
}

impl MCU for CPU {
    type Addr = u16;

    open spec fn mcu_wf(&self) -> bool {
        self.wf()
    }

    fn emulate(&mut self) -> (r: Result<(), DebugError>) {
        CPU::emulate(self)
    }

    fn decode(&self) -> (r: Result<u16, DebugError>) {
        CPU::decode(self)
    }
}

/// A reason for `run` to stop, evaluated against post-step state.
pub enum BreakCondition<F> {
    /// Stop when the instruction pointer equals this address.
    IPValue(u16),
    /// Stop when this caller-supplied predicate on the machine holds.
    Other(F),
    /// Stop on access to this memory location. Declared contract surface
    /// with no backing on the emulated target: registration refuses it.
    MemoryAccess(u16),
    /// Stop on an I/O event. Declared contract surface with no backing
    /// on the emulated target: registration refuses it.
    IO,
}

/// A value to re-render after every step. Declared contract surface with
/// no backing on the emulated target: registration refuses both
/// variants.
#[derive(Debug)]
pub enum WatchTarget {
    Pointee(Box<WatchTarget>),
    MemoryLocation(u16),
}

/// A break-condition variant the emulated target can evaluate.
pub open spec fn supported_cond<F>(c: &BreakCondition<F>) -> bool {
    match c {
        BreakCondition::IPValue(_) => true,
        BreakCondition::Other(_) => true,
        BreakCondition::MemoryAccess(_) => false,
        BreakCondition::IO => false,
    }
}

/// A caller-supplied predicate must be callable on every machine state.
pub open spec fn cond_pred_ok<F: Fn(&CPU) -> bool>(c: &BreakCondition<F>) -> bool {
    match c {
        BreakCondition::Other(f) => forall|cpu: CPU| call_requires(*f, (&cpu,)),
        _ => true,
    }
}

/// Some registered instruction-pointer condition names this address.
pub open spec fn ip_hit<F>(conds: Seq<BreakCondition<F>>, ip: u16) -> bool {
    exists|i: int|
        0 <= i < conds.len() && ((#[trigger] conds[i]) matches BreakCondition::IPValue(a) && a
            == ip)
}

/// Every registered condition is an instruction-pointer condition; on
/// such a set breakpoint evaluation is a pure function of the machine.
pub open spec fn all_ip<F>(conds: Seq<BreakCondition<F>>) -> bool {
    forall|i: int|
        0 <= i < conds.len() ==> (#[trigger] conds[i]) matches BreakCondition::IPValue(_)
}

/// The instruction pointer after one emulation step from `ip`: unchanged
/// on a disabled chip, advanced past the decoded instruction otherwise,
/// and undefined when decoding fails.
pub open spec fn ip_after(mem: Seq<u8>, disable: bool, ip: u16) -> Option<u16> {
    if disable {
        Some(ip)
    } else {
        match decode_of(mem.skip(ip as int)) {
            Some(l) => Some(ip_plus(ip, l)),
            None => None,
        }
    }
}

/// The instruction pointer after `n` emulation steps from `ip0`, over a
/// memory image that emulation never changes.
pub open spec fn trace_ip(mem: Seq<u8>, disable: bool, ip0: u16, n: nat) -> Option<u16>
    decreases n,
{
    if n == 0 {
        Some(ip0)
    } else {
        match trace_ip(mem, disable, ip0, (n - 1) as nat) {
            Some(p) => ip_after(mem, disable, p),
            None => None,
        }
    }
}

/// Stepping `k` more times from the state reached after `m` steps lands
/// where stepping `m + k` times from the start does.
pub proof fn lemma_trace_append(mem: Seq<u8>, disable: bool, ip0: u16, m: nat, k: nat)
    requires
        trace_ip(mem, disable, ip0, m) matches Some(p),
    ensures
        trace_ip(mem, disable, ip0, (m + k) as nat) == trace_ip(
            mem,
            disable,
            trace_ip(mem, disable, ip0, m).unwrap(),
            k,
        ),
    decreases k,
{
    if k > 0 {
        lemma_trace_append(mem, disable, ip0, m, (k - 1) as nat);
        assert(trace_ip(mem, disable, ip0, (m + k) as nat) == match trace_ip(
            mem,
            disable,
            ip0,
            (m + k - 1) as nat,
        ) {
            Some(p) => ip_after(mem, disable, p),
            None => None,
        });
    }
}

/// No instruction-pointer condition is satisfied anywhere in the first
/// `n` post-step states of the trace.
pub open spec fn no_ip_hits_through<F>(
    conds: Seq<BreakCondition<F>>,
    mem: Seq<u8>,
    disable: bool,
    ip0: u16,
    n: nat,
) -> bool {
    forall|k: nat|
        1 <= k <= n ==> ((#[trigger] trace_ip(mem, disable, ip0, k)) matches Some(q) ==> !ip_hit(
            conds,
            q,
        ))
}

/// A stop `run` may report on an all-instruction-pointer condition set:
/// after `n` steps the trace satisfies some registered condition, and no
/// earlier post-step state satisfied any. This is exactly the shape
/// `run`'s contract admits for a `HitBreakCondition` outcome.
pub open spec fn first_hit_at<F>(
    conds: Seq<BreakCondition<F>>,
    mem: Seq<u8>,
    disable: bool,
    start: u16,
    n: nat,
) -> bool {
    &&& 1 <= n
    &&& (trace_ip(mem, disable, start, n) matches Some(p) && ip_hit(conds, p))
    &&& no_ip_hits_through(conds, mem, disable, start, (n - 1) as nat)
}

/// Breakpoint first-hit law. With instruction-pointer breakpoints at
/// address `a` alone, on a trace that visits `a` exactly after steps 3
/// and 7 of its first seven steps, a run from the start can stop only
/// after step 3 (the first visit, not the last), and a run resumed from
/// that stop can stop only four steps later: at the original trace's
/// step 7.
pub proof fn lemma_breakpoint_first_hit<F>(
    conds: Seq<BreakCondition<F>>,
    mem: Seq<u8>,
    disable: bool,
    ip0: u16,
    a: u16,
)
    requires
        forall|p: u16| #[trigger] ip_hit(conds, p) <==> p == a,
        forall|k: nat| 1 <= k <= 7 ==> (#[trigger] trace_ip(mem, disable, ip0, k)) is Some,
        forall|k: nat|
            1 <= k <= 7 ==> ((#[trigger] trace_ip(mem, disable, ip0, k)) matches Some(q) ==> (q
                == a <==> (k == 3 || k == 7))),
    ensures
        first_hit_at(conds, mem, disable, ip0, 3),
        forall|n: nat| #[trigger] first_hit_at(conds, mem, disable, ip0, n) ==> n == 3,
        trace_ip(mem, disable, ip0, 3) matches Some(p1) && first_hit_at(conds, mem, disable, p1, 4)
            && (forall|n: nat| #[trigger] first_hit_at(conds, mem, disable, p1, n) ==> n == 4),
{
    let q3 = trace_ip(mem, disable, ip0, 3).unwrap();
    assert(q3 == a);
    assert(ip_hit(conds, q3));
    assert(no_ip_hits_through(conds, mem, disable, ip0, 2));
    assert(first_hit_at(conds, mem, disable, ip0, 3));
    assert forall|n: nat| #[trigger] first_hit_at(conds, mem, disable, ip0, n) implies n == 3 by {
        if n < 3 {
            let q = trace_ip(mem, disable, ip0, n).unwrap();
            assert(q != a);
        } else if n > 3 {
            assert(no_ip_hits_through(conds, mem, disable, ip0, (n - 1) as nat));
            assert(trace_ip(mem, disable, ip0, 3) matches Some(p) ==> !ip_hit(conds, p));
        }
    }
    // the resumed run: its trace is the original trace shifted by three
    assert forall|k: nat| k <= 4 implies trace_ip(mem, disable, q3, k) == trace_ip(
        mem,
        disable,
        ip0,
        (3 + k) as nat,
    ) by {
        lemma_trace_append(mem, disable, ip0, 3, k);
    }
    assert(trace_ip(mem, disable, q3, 4) matches Some(p) && ip_hit(conds, p));
    assert(no_ip_hits_through(conds, mem, disable, q3, 3)) by {
        assert forall|k: nat|
            1 <= k <= 3 implies ((#[trigger] trace_ip(mem, disable, q3, k)) matches Some(q2)
            ==> !ip_hit(conds, q2)) by {
            assert(trace_ip(mem, disable, q3, k) == trace_ip(mem, disable, ip0, (3 + k) as nat));
        }
    }
    assert(first_hit_at(conds, mem, disable, q3, 4));
    assert forall|n: nat| #[trigger] first_hit_at(conds, mem, disable, q3, n) implies n == 4 by {
        if n < 4 {
            assert(trace_ip(mem, disable, q3, n) == trace_ip(mem, disable, ip0, (3 + n) as nat));
            let q = trace_ip(mem, disable, q3, n).unwrap();
            assert(q != a);
        } else if n > 4 {
            assert(no_ip_hits_through(conds, mem, disable, q3, (n - 1) as nat));
            assert(trace_ip(mem, disable, q3, 4) matches Some(p) ==> !ip_hit(conds, p));
        }
    }
}

/// The emulated target bound to the breakpoint/watch protocol: it owns
/// the machine plus the session's ordered break-condition and watch
/// collections.
pub struct MSP430DebugTarget<F> {
    pub target: CPU,
    break_conditions: Vec<BreakCondition<F>>,
    watch_targets: Vec<WatchTarget>,
}

impl<F> MSP430DebugTarget<F> {
    /// The machine this session is bound to.
    pub closed spec fn target_spec(&self) -> CPU {
        self.target
    }

    /// The session's registered break conditions, in registration order.
    pub closed spec fn conds_spec(&self) -> Seq<BreakCondition<F>> {
        self.break_conditions@
    }

    /// The session's registered watches, in registration order.
    pub closed spec fn watches_spec(&self) -> Seq<WatchTarget> {
        self.watch_targets@
    }
}

impl<F: Fn(&CPU) -> bool> MSP430DebugTarget<F> {
    /// Evaluate every registered break condition, in registration order,
    /// against the current machine state.
    fn check_breakpoints(&self) -> (r: bool)
        requires
            self.wf(),
        ensures
            all_ip(self.conds_spec()) ==> r == ip_hit(self.conds_spec(), self.target.ip_spec()),
            !r ==> !ip_hit(self.conds_spec(), self.target.ip_spec()),
            r ==> ip_hit(self.conds_spec(), self.target.ip_spec()) || (exists|i: int|
                0 <= i < self.conds_spec().len() && ((#[trigger] self.conds_spec()[i])
                    matches BreakCondition::Other(f) && call_ensures(f, (&self.target,), true))),
    {
        let mut i: usize = 0;
        while i < self.break_conditions.len()
            invariant
                self.wf(),
                i <= self.break_conditions@.len(),
                forall|j: int|
                    0 <= j < i ==> !((#[trigger] self.break_conditions@[j])
                        matches BreakCondition::IPValue(a) && a == self.target.ip_spec()),
            decreases self.break_conditions@.len() - i,
        {
            match &self.break_conditions[i] {
                BreakCondition::IPValue(ip) => {
                    if self.target.ip() == *ip {
                        return true;
                    }
                },
                BreakCondition::Other(f) => {
                    if (*f)(&self.target) {
                        proof {
                            assert(exists|ii: int|
                                0 <= ii < self.conds_spec().len() && ((
                                #[trigger] self.conds_spec()[ii]) matches BreakCondition::Other(g)
                                    && call_ensures(g, (&self.target,), true)));
                        }
                        return true;
                    }
                },
                BreakCondition::MemoryAccess(_) => {
                    // registration refuses this kind, so it is never in the set
                },
                BreakCondition::IO => {
                    // registration refuses this kind, so it is never in the set
                },
            }
            i += 1;
        }
        false
    }
}

impl<F: Fn(&CPU) -> bool> DebugTarget<CPU> for MSP430DebugTarget<F> {
    type WatchTarget = WatchTarget;

    type BreakCondition = BreakCondition<F>;

    closed spec fn wf(&self) -> bool {
        &&& self.target.wf()
        &&& forall|i: int|
            0 <= i < self.break_conditions@.len() ==> supported_cond(
                &(#[trigger] self.break_conditions@[i]),
            ) && cond_pred_ok(&self.break_conditions@[i])
        &&& self.watch_targets@.len() == 0
    }

    open spec fn attachable(target: &CPU) -> bool {
        target.wf()
    }

    open spec fn cond_ok(break_cond: &BreakCondition<F>) -> bool {
        cond_pred_ok(break_cond)
    }

    /// Bind a session to a machine, with empty break and watch sets.
    fn attach(target: CPU) -> (r: Result<Self, DebugError>)
        ensures
            r matches Ok(s) && same_state(s.target_spec(), target) && s.conds_spec().len() == 0
                && s.watches_spec().len() == 0,
    {
        Ok(
            MSP430DebugTarget {
                target,
                break_conditions: Vec::new(),
                watch_targets: Vec::new(),
            },
        )
    }

    /// One emulated instruction; the condition and watch sets are left
    /// untouched (the watch set is necessarily empty on this target).
    fn single_step(&mut self) -> (r: Result<(), DebugError>)
        ensures
            emulate_rel(old(self).target_spec(), final(self).target_spec(), r),
            final(self).conds_spec() == old(self).conds_spec(),
            final(self).watches_spec() == old(self).watches_spec(),
    {
        self.target.emulate()
    }

    /// Step once unconditionally, then keep stepping; after every step,
    /// evaluate the registered break conditions in registration order and
    /// stop at the first satisfied one. A step failure ends the run with
    /// its error. The loop gives up one step short of `u64::MAX` steps, a
    /// bound no terrestrial machine reaches.
    fn run(&mut self) -> (r: RunResult)
        ensures
            final(self).conds_spec() == old(self).conds_spec(),
            final(self).watches_spec() == old(self).watches_spec(),
            final(self).target_spec().memory@ == old(self).target_spec().memory@,
            final(self).target_spec().disable == old(self).target_spec().disable,
            ({
                let conds = old(self).conds_spec();
                let mem = old(self).target_spec().memory@;
                let dis = old(self).target_spec().disable;
                let ip0 = old(self).target_spec().ip_spec();
                &&& (r == RunResult::HitBreakCondition ==> exists|n: nat|
                    1 <= n && ((#[trigger] trace_ip(mem, dis, ip0, n)) matches Some(p) && final(self).target_spec().ip_spec() == p && (all_ip(conds) ==> ip_hit(conds, p)
                        && no_ip_hits_through(conds, mem, dis, ip0, (n - 1) as nat))))
                &&& (r matches RunResult::ExecutionError(e) ==> exists|n: nat|
                    1 <= n && ((#[trigger] trace_ip(mem, dis, ip0, (n - 1) as nat)) matches Some(
                        p,
                    ) && final(self).target_spec().ip_spec() == p && decode_of(mem.skip(p as int))
                        is None && (e matches DebugError::DecodeFailure { address, window }
                        && address == p && window@ == decode_window(final(self).target_spec())) && (all_ip(
                        conds,
                    ) ==> no_ip_hits_through(conds, mem, dis, ip0, (n - 1) as nat))))
                &&& (r == RunResult::Stepped ==> (trace_ip(mem, dis, ip0, u64::MAX as nat)
                    matches Some(p) && final(self).target_spec().ip_spec() == p && (all_ip(conds)
                    ==> no_ip_hits_through(conds, mem, dis, ip0, u64::MAX as nat))))
                &&& (r == RunResult::HitBreakCondition ==> ip_hit(
                    conds,
                    final(self).target_spec().ip_spec(),
                ) || (exists|i: int|
                    0 <= i < conds.len() && ((#[trigger] conds[i]) matches BreakCondition::Other(f)
                        && call_ensures(f, (&final(self).target_spec(),), true))))
            }),
    {
        let ghost conds = self.conds_spec();
        let ghost mem = self.target.memory@;
        let ghost dis = self.target.disable;
        let ghost ip0 = self.target.ip_spec();
        match self.target.emulate() {
            Ok(()) => {
                proof {
                    assert(trace_ip(mem, dis, ip0, 0nat) == Some(ip0));
                    assert(trace_ip(mem, dis, ip0, 1nat) == ip_after(mem, dis, ip0));
                }
            },
            Err(e) => {
                proof {
                    assert(trace_ip(mem, dis, ip0, 0nat) == Some(ip0));
                    assert(trace_ip(mem, dis, ip0, (1nat - 1) as nat) matches Some(p) && p
                        == ip0);
                }
                return RunResult::ExecutionError(e);
            },
        }
        let mut steps: u64 = 1;
        loop
            invariant
                self.wf(),
                1 <= steps,
                self.conds_spec() == conds,
                self.watches_spec() == old(self).watches_spec(),
                conds == old(self).conds_spec(),
                self.target.memory@ == mem,
                self.target.disable == dis,
                mem == old(self).target.memory@,
                dis == old(self).target.disable,
                ip0 == old(self).target.ip_spec(),
                trace_ip(mem, dis, ip0, steps as nat) matches Some(q) && q
                    == self.target.ip_spec(),
                all_ip(conds) ==> no_ip_hits_through(
                    conds,
                    mem,
                    dis,
                    ip0,
                    (steps - 1) as nat,
                ),
            decreases u64::MAX - steps,
        {
            let hit = self.check_breakpoints();
            if hit {
                return RunResult::HitBreakCondition;
            }
            if steps == u64::MAX {
                proof {
                    if all_ip(conds) {
                        assert forall|k: nat| 1 <= k <= u64::MAX as nat implies ((
                        #[trigger] trace_ip(mem, dis, ip0, k)) matches Some(q2) ==> !ip_hit(
                            conds,
                            q2,
                        )) by {
                            if k <= (steps - 1) as nat {
                                assert(no_ip_hits_through(conds, mem, dis, ip0, (steps - 1) as nat));
                            }
                        }
                    }
                }
                return RunResult::Stepped;
            }
            match self.target.emulate() {
                Ok(()) => {
                    proof {
                        assert(trace_ip(mem, dis, ip0, (steps + 1) as nat) == ip_after(
                            mem,
                            dis,
                            trace_ip(mem, dis, ip0, steps as nat).unwrap(),
                        ));
                        if all_ip(conds) {
                            assert forall|k: nat| 1 <= k <= steps as nat implies ((
                            #[trigger] trace_ip(mem, dis, ip0, k)) matches Some(q2) ==> !ip_hit(
                                conds,
                                q2,
                            )) by {
                                if k <= (steps - 1) as nat {
                                    assert(no_ip_hits_through(
                                        conds,
                                        mem,
                                        dis,
                                        ip0,
                                        (steps - 1) as nat,
                                    ));
                                }
                            }
                        }
                    }
                    steps = steps + 1;
                },
                Err(e) => {
                    proof {
                        if all_ip(conds) {
                            assert forall|k: nat| 1 <= k <= steps as nat implies ((
                            #[trigger] trace_ip(mem, dis, ip0, k)) matches Some(q2) ==> !ip_hit(
                                conds,
                                q2,
                            )) by {
                                if k <= (steps - 1) as nat {
                                    assert(no_ip_hits_through(
                                        conds,
                                        mem,
                                        dis,
                                        ip0,
                                        (steps - 1) as nat,
                                    ));
                                }
                            }
                        }
                        assert(trace_ip(mem, dis, ip0, ((steps + 1) - 1) as nat) matches Some(p)
                            && p == self.target.ip_spec());
                    }
                    return RunResult::ExecutionError(e);
                },
            }
        }
    }

    /// Watches have no backing on this target: both variants are refused
    /// with an unsupported-kind error and nothing is recorded.
    fn add_watch(&mut self, watch: WatchTarget) -> (r: Result<(), DebugError>)
        ensures
            same_state(final(self).target_spec(), old(self).target_spec()),
            final(self).conds_spec() == old(self).conds_spec(),
            final(self).watches_spec() == old(self).watches_spec(),
            watch matches WatchTarget::Pointee(_) ==> r == Err::<(), DebugError>(
                DebugError::UnsupportedConditionKind { kind: ConditionKind::PointeeWatch },
            ),
            watch matches WatchTarget::MemoryLocation(_) ==> r == Err::<(), DebugError>(
                DebugError::UnsupportedConditionKind { kind: ConditionKind::MemoryLocationWatch },
            ),
    {
        match watch {
            WatchTarget::Pointee(_) => Err(
                DebugError::UnsupportedConditionKind { kind: ConditionKind::PointeeWatch },
            ),
            WatchTarget::MemoryLocation(_) => Err(
                DebugError::UnsupportedConditionKind { kind: ConditionKind::MemoryLocationWatch },
            ),
        }
    }

    /// Instruction-pointer and predicate conditions are appended, in
    /// order, without touching existing entries; the two unimplemented
    /// kinds are refused and nothing is recorded.
    fn add_break_condition(&mut self, break_cond: BreakCondition<F>) -> (r: Result<
        (),
        DebugError,
    >)
        ensures
            same_state(final(self).target_spec(), old(self).target_spec()),
            final(self).watches_spec() == old(self).watches_spec(),
            supported_cond(&break_cond) ==> r == Ok::<(), DebugError>(()) && final(self).conds_spec() == old(self).conds_spec().push(break_cond),
            break_cond matches BreakCondition::MemoryAccess(_) ==> r == Err::<(), DebugError>(
                DebugError::UnsupportedConditionKind { kind: ConditionKind::MemoryAccess },
            ) && final(self).conds_spec() == old(self).conds_spec(),
            break_cond matches BreakCondition::IO ==> r == Err::<(), DebugError>(
                DebugError::UnsupportedConditionKind { kind: ConditionKind::Io },
            ) && final(self).conds_spec() == old(self).conds_spec(),
    {
        match &break_cond {
            BreakCondition::IPValue(_) | BreakCondition::Other(_) => {
                self.break_conditions.push(break_cond);
                Ok(())
            },
            BreakCondition::MemoryAccess(_) => Err(
                DebugError::UnsupportedConditionKind { kind: ConditionKind::MemoryAccess },
            ),
            BreakCondition::IO => Err(
                DebugError::UnsupportedConditionKind { kind: ConditionKind::Io },
            ),
        }
    }
}

} // verus!
