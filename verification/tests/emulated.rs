//! The emulated MSP430 target: loader, reset vector, instruction cycle,
//! and the breakpoint/watch protocol bound to it.

use dbgcore::debug::DebugTarget;
use dbgcore::debug::RunResult;
use dbgcore::errors::ConditionKind;
use dbgcore::errors::DebugError;
use dbgcore::memory::MemoryRepr;
use dbgcore::msp430::BreakCondition;
use dbgcore::msp430::LoadNote;
use dbgcore::msp430::MSP430DebugTarget;
use dbgcore::msp430::WatchTarget;
use dbgcore::msp430::CPU;

type Pred = fn(&CPU) -> bool;

/// MOV #0, r3: a two-byte no-op, little-endian encoding of 0x4303.
const NOP: [u8; 2] = [0x03, 0x43];

fn image_of_nops(count: usize) -> MemoryRepr {
    let mut bytes = Vec::new();
    for _ in 0..count {
        bytes.extend_from_slice(&NOP);
    }
    let mut image = MemoryRepr::new();
    image.set_section(0, bytes);
    image
}

#[test]
fn load_writes_image_and_reset_vector_zero() {
    let mut cpu = CPU::new();
    let mut image = MemoryRepr::new();
    image.set_section(0, vec![0x10, 0x20, 0x30]);
    let r = cpu.program(image);
    assert_eq!(r, Ok(LoadNote::Loaded));
    assert_eq!(&cpu.memory[..3], &[0x10, 0x20, 0x30]);
    assert_eq!(cpu.memory[3], 0);
    // the untouched top of memory holds a zero reset vector
    assert_eq!(cpu.ip(), 0);
    assert!(!cpu.is_disabled());
}

#[test]
fn load_takes_ip_from_big_endian_reset_vector() {
    let mut cpu = CPU::new();
    let mut bytes = vec![0u8; 0x10000];
    bytes[0xfffe] = 0x12; // high byte
    bytes[0xffff] = 0x04; // low byte
    let mut image = MemoryRepr::new();
    image.set_section(0, bytes);
    let r = cpu.program(image);
    assert_eq!(r, Ok(LoadNote::Loaded));
    assert_eq!(cpu.ip(), 0x1204);
    assert!(!cpu.is_disabled());
}

#[test]
fn sentinel_reset_vector_disables_chip_and_keeps_ip() {
    let mut cpu = CPU::new();
    cpu.set_ip(0x1234);
    let mut bytes = vec![0u8; 0x10000];
    bytes[0xfffe] = 0xff;
    bytes[0xffff] = 0xff;
    let mut image = MemoryRepr::new();
    image.set_section(0, bytes);
    let r = cpu.program(image);
    assert_eq!(r, Ok(LoadNote::Loaded));
    assert!(cpu.is_disabled());
    assert_eq!(cpu.ip(), 0x1234);
}

#[test]
fn image_with_no_code_is_accepted_with_a_note() {
    let mut cpu = CPU::new();
    let r = cpu.program(MemoryRepr::new());
    assert_eq!(r, Ok(LoadNote::NoCode));
    assert_eq!(cpu.ip(), 0);
}

#[test]
fn oversized_image_is_rejected_and_memory_untouched() {
    let mut cpu = CPU::new();
    cpu.set_byte(0, 0x77).unwrap();
    let mut image = MemoryRepr::new();
    image.set_section(0, vec![0xaa; 0x10001]);
    let r = cpu.program(image);
    assert_eq!(
        r,
        Err(DebugError::ImageTooLarge { image_size: 0x10001, capacity: 0x10000 })
    );
    assert_eq!(cpu.memory[0], 0x77);
    assert_eq!(cpu.memory[1], 0);
    assert_eq!(cpu.ip(), 0);
    assert!(!cpu.is_disabled());
}

#[test]
fn disabled_chip_emulate_is_a_repeated_noop() {
    let mut cpu = CPU::new();
    let mut bytes = vec![0u8; 0x10000];
    bytes[0xfffe] = 0xff;
    bytes[0xffff] = 0xff;
    let mut image = MemoryRepr::new();
    image.set_section(0, bytes);
    cpu.program(image).unwrap();
    assert!(cpu.is_disabled());
    let before_regs = cpu.registers;
    let before_mem = cpu.memory.clone();
    assert_eq!(cpu.emulate(), Ok(()));
    assert_eq!(cpu.emulate(), Ok(()));
    assert_eq!(cpu.registers, before_regs);
    assert_eq!(cpu.memory, before_mem);
    assert!(cpu.is_disabled());
}

#[test]
fn decode_reports_length_of_known_instruction() {
    let mut cpu = CPU::new();
    cpu.program(image_of_nops(1)).unwrap();
    assert_eq!(cpu.decode(), Ok(2));
}

#[test]
fn decode_failure_names_address_and_window() {
    let mut cpu = CPU::new();
    cpu.set_ip(0xffff);
    // one byte of input cannot hold an instruction word
    match cpu.decode() {
        Err(DebugError::DecodeFailure { address, window }) => {
            assert_eq!(address, 0xffff);
            assert_eq!(window, vec![0]);
        }
        other => panic!("expected a decode failure, got {:?}", other),
    }
}

#[test]
fn emulate_advances_ip_past_instruction() {
    let mut cpu = CPU::new();
    cpu.program(image_of_nops(4)).unwrap();
    assert_eq!(cpu.ip(), 0);
    assert_eq!(cpu.emulate(), Ok(()));
    assert_eq!(cpu.ip(), 2);
    assert_eq!(cpu.emulate(), Ok(()));
    assert_eq!(cpu.ip(), 4);
}

#[test]
fn get_and_set_byte_round_trip() {
    let mut cpu = CPU::new();
    assert_eq!(cpu.get_byte(0x100), Ok(0));
    cpu.set_byte(0x100, 0xab).unwrap();
    assert_eq!(cpu.get_byte(0x100), Ok(0xab));
    assert_eq!(cpu.get_byte_noupdate(0x100), Ok(0xab));
    cpu.set_byte_noupdate(0x100, 0xcd).unwrap();
    assert_eq!(cpu.get_byte_noupdate(0x100), Ok(0xcd));
}

#[test]
fn out_of_range_access_fails_on_short_memory() {
    // a machine whose buffer does not span the address space rejects
    // addressing past it instead of wrapping or clamping
    let mut cpu = CPU {
        registers: [0u16; 16],
        memory: vec![0u8; 4],
        disable: false,
    };
    assert_eq!(
        cpu.get_byte_noupdate(10),
        Err(DebugError::AddressOutOfRange { address: 10, capacity: 4 })
    );
    assert_eq!(
        cpu.set_byte_noupdate(10, 1),
        Err(DebugError::AddressOutOfRange { address: 10, capacity: 4 })
    );
    assert_eq!(cpu.memory, vec![0u8; 4]);
}

#[test]
fn run_stops_at_first_hit_then_resumes_to_next() {
    let mut cpu = CPU::new();
    cpu.program(image_of_nops(16)).unwrap();
    let mut session = MSP430DebugTarget::<Pred>::attach(cpu).unwrap();
    // the trace visits 2, 4, 6, ... ; a breakpoint at 6 is hit after
    // three steps, never on the zeroth step
    session
        .add_break_condition(BreakCondition::IPValue(6))
        .unwrap();
    assert_eq!(session.run(), RunResult::HitBreakCondition);
    assert_eq!(session.target.ip(), 6);
    // resuming runs to the next satisfied condition, four steps on
    session
        .add_break_condition(BreakCondition::IPValue(14))
        .unwrap();
    assert_eq!(session.run(), RunResult::HitBreakCondition);
    assert_eq!(session.target.ip(), 14);
}

#[test]
fn breakpoint_at_entry_is_not_hit_on_zeroth_step() {
    let mut cpu = CPU::new();
    cpu.program(image_of_nops(8)).unwrap();
    let mut session = MSP430DebugTarget::<Pred>::attach(cpu).unwrap();
    assert_eq!(session.target.ip(), 0);
    // a breakpoint at the entry address compares against post-step
    // state only; this trace never revisits 0, so the run sails past
    // it and stops at the later breakpoint instead
    session
        .add_break_condition(BreakCondition::IPValue(0))
        .unwrap();
    session
        .add_break_condition(BreakCondition::IPValue(4))
        .unwrap();
    assert_eq!(session.run(), RunResult::HitBreakCondition);
    assert_eq!(session.target.ip(), 4);
}

fn ip_at_least_six(cpu: &CPU) -> bool {
    cpu.ip() >= 6
}

#[test]
fn predicate_break_condition_stops_run() {
    let mut cpu = CPU::new();
    cpu.program(image_of_nops(16)).unwrap();
    let mut session = MSP430DebugTarget::<Pred>::attach(cpu).unwrap();
    session
        .add_break_condition(BreakCondition::Other(ip_at_least_six))
        .unwrap();
    assert_eq!(session.run(), RunResult::HitBreakCondition);
    assert_eq!(session.target.ip(), 6);
}

#[test]
fn single_step_is_one_instruction() {
    let mut cpu = CPU::new();
    cpu.program(image_of_nops(4)).unwrap();
    let mut session = MSP430DebugTarget::<Pred>::attach(cpu).unwrap();
    session.single_step().unwrap();
    assert_eq!(session.target.ip(), 2);
}

#[test]
fn unsupported_kinds_are_rejected_and_leave_no_trace() {
    let mut cpu = CPU::new();
    cpu.program(image_of_nops(8)).unwrap();
    let mut session = MSP430DebugTarget::<Pred>::attach(cpu).unwrap();
    assert_eq!(
        session.add_break_condition(BreakCondition::MemoryAccess(2)),
        Err(DebugError::UnsupportedConditionKind { kind: ConditionKind::MemoryAccess })
    );
    assert_eq!(
        session.add_break_condition(BreakCondition::IO),
        Err(DebugError::UnsupportedConditionKind { kind: ConditionKind::Io })
    );
    assert_eq!(
        session.add_watch(WatchTarget::MemoryLocation(2)),
        Err(DebugError::UnsupportedConditionKind { kind: ConditionKind::MemoryLocationWatch })
    );
    assert_eq!(
        session.add_watch(WatchTarget::Pointee(Box::new(WatchTarget::MemoryLocation(2)))),
        Err(DebugError::UnsupportedConditionKind { kind: ConditionKind::PointeeWatch })
    );
    // a later run must not spuriously report a hit for a refused
    // condition: it stops only at the one accepted breakpoint
    session
        .add_break_condition(BreakCondition::IPValue(4))
        .unwrap();
    assert_eq!(session.run(), RunResult::HitBreakCondition);
    assert_eq!(session.target.ip(), 4);
}

#[test]
fn run_reports_step_failure_as_execution_error() {
    let mut cpu = CPU::new();
    // no program: memory is all zeros; place the ip one byte short of
    // the top so the very first decode runs out of input
    cpu.set_ip(0xffff);
    let mut session = MSP430DebugTarget::<Pred>::attach(cpu).unwrap();
    match session.run() {
        RunResult::ExecutionError(DebugError::DecodeFailure { address, window }) => {
            assert_eq!(address, 0xffff);
            assert_eq!(window, vec![0]);
        }
        other => panic!("expected an execution error, got {:?}", other),
    }
}

#[test]
fn primary_section_is_the_one_the_loader_consumes() {
    let mut image = MemoryRepr::new();
    assert!(image.primary().is_none());
    image.set_section(7, vec![9, 9]);
    assert!(image.primary().is_none());
    image.set_section(0, vec![1, 2, 3]);
    assert_eq!(image.primary(), Some(&vec![1, 2, 3]));
}
