//! The packed-syscall batcher: draining, error policies, and the
//! suspend-position rule.

use cortexm::boundary::{HardwareSwitchResult, SwitchOutcome, SysCall};
use cortexm::errorcode::ErrorCode;
use cortexm::memory::ProcessMemory;
use cortexm::state::{CortexMStoredState, PackedSyscall, PackedSyscallErrorPolicy};
use cortexm::syscall::{ContextSwitchReason, Syscall, SyscallReturn};

const START: u32 = 0x100;
const BRK: u32 = 0x200;
const PSP: u32 = 0x1c0;
const CURSOR: u32 = 0x120;

fn fresh_memory() -> ProcessMemory {
    ProcessMemory::new(START, 64)
}

fn state_with_batch(remaining: u32, policy: PackedSyscallErrorPolicy) -> CortexMStoredState {
    CortexMStoredState {
        regs: [0; 8],
        yield_pc: 0x400,
        psr: 0x0100_0000,
        psp: PSP,
        packed_syscall: Some(PackedSyscall {
            count_remaining: remaining,
            pointer: CURSOR,
            error_policy: policy,
        }),
    }
}

fn write_entry(mem: &mut ProcessMemory, index: u32, words: [u32; 5]) {
    for (k, w) in words.iter().enumerate() {
        mem.write_word(CURSOR + 20 * index + 4 * k as u32, *w);
    }
}

#[test]
fn no_batch_means_no_packed_outcome() {
    let boundary = SysCall::new();
    let mem = fresh_memory();
    let mut state = CortexMStoredState::default();
    state.psp = PSP;
    assert_eq!(boundary.next_packed_syscall(START, BRK, &mut state, &mem), None);
    assert!(matches!(
        boundary.switch_to_process(START, BRK, &mut state, &mem),
        SwitchOutcome::SwitchRequired { stack_pointer: PSP }
    ));
}

#[test]
fn next_entry_is_decoded_without_advancing() {
    let boundary = SysCall::new();
    let mut mem = fresh_memory();
    write_entry(&mut mem, 0, [2, 7, 8, 9, 10]);
    let mut state = state_with_batch(2, PackedSyscallErrorPolicy::Stop);
    let r = boundary.next_packed_syscall(START, BRK, &mut state, &mem);
    assert_eq!(
        r,
        Some(ContextSwitchReason::SyscallFired {
            syscall: Syscall::Command {
                driver_number: 7,
                subdriver_number: 8,
                arg0: 9,
                arg1: 10,
            },
        })
    );
    // The cursor only advances when a return value is delivered.
    let ps = state.packed_syscall.unwrap();
    assert_eq!((ps.count_remaining, ps.pointer), (2, CURSOR));
}

#[test]
fn out_of_window_batch_region_faults_and_discards() {
    let boundary = SysCall::new();
    let mem = fresh_memory();
    // Twelve entries starting at the cursor reach past the break.
    let mut state = state_with_batch(12, PackedSyscallErrorPolicy::Stop);
    let r = boundary.next_packed_syscall(START, BRK, &mut state, &mem);
    assert_eq!(r, Some(ContextSwitchReason::Fault));
    assert_eq!(state.packed_syscall, None);
}

#[test]
fn unrecognized_entry_faults_and_discards() {
    let boundary = SysCall::new();
    let mut mem = fresh_memory();
    write_entry(&mut mem, 0, [99, 0, 0, 0, 0]);
    let mut state = state_with_batch(1, PackedSyscallErrorPolicy::Stop);
    let r = boundary.next_packed_syscall(START, BRK, &mut state, &mem);
    assert_eq!(r, Some(ContextSwitchReason::Fault));
    assert_eq!(state.packed_syscall, None);
}

#[test]
fn suspend_mid_batch_faults() {
    let boundary = SysCall::new();
    let mut mem = fresh_memory();
    write_entry(&mut mem, 0, [0, 1, 0, 0, 0]);
    let mut state = state_with_batch(2, PackedSyscallErrorPolicy::Stop);
    let r = boundary.next_packed_syscall(START, BRK, &mut state, &mem);
    assert_eq!(r, Some(ContextSwitchReason::Fault));
    assert_eq!(state.packed_syscall, None);
}

#[test]
fn suspend_as_final_entry_fires() {
    let boundary = SysCall::new();
    let mut mem = fresh_memory();
    write_entry(&mut mem, 0, [0, 1, 0x600, 0, 0]);
    let mut state = state_with_batch(1, PackedSyscallErrorPolicy::Stop);
    let r = boundary.next_packed_syscall(START, BRK, &mut state, &mem);
    assert_eq!(
        r,
        Some(ContextSwitchReason::SyscallFired {
            syscall: Syscall::Yield { which: 1, address: 0x600 },
        })
    );
    assert!(state.packed_syscall.is_some());
}

#[test]
fn successful_delivery_advances_cursor_and_count() {
    let boundary = SysCall::new();
    let mut mem = fresh_memory();
    let mut state = state_with_batch(3, PackedSyscallErrorPolicy::Stop);
    let r = boundary.set_syscall_return_value(
        START,
        BRK,
        &mut state,
        &mut mem,
        SyscallReturn::SuccessU32(41),
    );
    assert_eq!(r, Ok(()));
    let ps = state.packed_syscall.unwrap();
    assert_eq!((ps.count_remaining, ps.pointer), (2, CURSOR + 20));
    // The return value landed in the entry's argument words: identifier
    // 129 (success with one word) and the payload.
    assert_eq!(mem.read_word(CURSOR + 4), 129);
    assert_eq!(mem.read_word(CURSOR + 8), 41);
}

#[test]
fn batch_is_discarded_when_last_entry_completes() {
    let boundary = SysCall::new();
    let mut mem = fresh_memory();
    let mut state = state_with_batch(1, PackedSyscallErrorPolicy::Stop);
    let r = boundary.set_syscall_return_value(
        START,
        BRK,
        &mut state,
        &mut mem,
        SyscallReturn::Success,
    );
    assert_eq!(r, Ok(()));
    assert_eq!(state.packed_syscall, None);
}

#[test]
fn stop_on_error_reports_skipped_count_and_aborts() {
    // A batch of three entries under the stop-on-error policy: the first
    // entry succeeds, the second fails. The entry-point frame must end
    // with the failure identifier and one entry not executed, and the
    // third entry must never be read.
    let boundary = SysCall::new();
    let mut mem = fresh_memory();
    write_entry(&mut mem, 0, [2, 1, 1, 0, 0]);
    write_entry(&mut mem, 1, [2, 2, 2, 0, 0]);
    write_entry(&mut mem, 2, [2, 3, 3, 0, 0]);
    let mut state = state_with_batch(3, PackedSyscallErrorPolicy::Stop);

    boundary
        .set_syscall_return_value(START, BRK, &mut state, &mut mem, SyscallReturn::Success)
        .unwrap();
    assert_eq!(state.packed_syscall.unwrap().count_remaining, 2);

    boundary
        .set_syscall_return_value(
            START,
            BRK,
            &mut state,
            &mut mem,
            SyscallReturn::Failure(ErrorCode::NOMEM),
        )
        .unwrap();
    // Identifier 1 is a failure with one payload word; the payload is the
    // count of entries not executed: 3 - 2 = 1.
    assert_eq!(mem.read_word(PSP), 1);
    assert_eq!(mem.read_word(PSP + 4), 1);
    assert_eq!(state.packed_syscall, None);

    // With the batch discarded, nothing reads the third entry: the next
    // scheduling turn falls through to a real switch and the entry's
    // words are exactly as written.
    assert!(matches!(
        boundary.switch_to_process(START, BRK, &mut state, &mem),
        SwitchOutcome::SwitchRequired { .. }
    ));
    assert_eq!(mem.read_word(CURSOR + 40), 2);
    assert_eq!(mem.read_word(CURSOR + 44), 3);
}

#[test]
fn continue_on_error_attempts_every_entry() {
    // A batch of three entries under the continue-on-error policy: every
    // entry fails, yet all three are attempted and drained.
    let boundary = SysCall::new();
    let mut mem = fresh_memory();
    write_entry(&mut mem, 0, [2, 1, 1, 0, 0]);
    write_entry(&mut mem, 1, [2, 2, 2, 0, 0]);
    write_entry(&mut mem, 2, [2, 3, 3, 0, 0]);
    let mut state = state_with_batch(3, PackedSyscallErrorPolicy::Continue);

    let mut attempted = Vec::new();
    loop {
        match boundary.switch_to_process(START, BRK, &mut state, &mem) {
            SwitchOutcome::Resolved {
                reason: ContextSwitchReason::SyscallFired { syscall: Syscall::Command { driver_number, .. } },
                ..
            } => {
                attempted.push(driver_number);
                boundary
                    .set_syscall_return_value(
                        START,
                        BRK,
                        &mut state,
                        &mut mem,
                        SyscallReturn::Failure(ErrorCode::BUSY),
                    )
                    .unwrap();
            }
            SwitchOutcome::SwitchRequired { .. } => break,
            other => panic!("unexpected outcome {:?}", other),
        }
    }
    assert_eq!(attempted, vec![1, 2, 3]);
    assert_eq!(state.packed_syscall, None);
    // No abort report was written into the entry-point frame.
    assert_eq!(mem.read_word(PSP), 0);
}

#[test]
fn delivery_refused_when_batch_region_leaves_window() {
    let boundary = SysCall::new();
    let mut mem = fresh_memory();
    let mut state = state_with_batch(12, PackedSyscallErrorPolicy::Stop);
    let before = state.clone();
    let r = boundary.set_syscall_return_value(
        START,
        BRK,
        &mut state,
        &mut mem,
        SyscallReturn::Success,
    );
    assert_eq!(r, Err(()));
    assert_eq!(state, before);
}

#[test]
fn aborting_delivery_refused_when_entry_frame_leaves_window() {
    let boundary = SysCall::new();
    let mut mem = fresh_memory();
    let mut state = state_with_batch(1, PackedSyscallErrorPolicy::Stop);
    state.psp = BRK - 4;
    let r = boundary.set_syscall_return_value(
        START,
        BRK,
        &mut state,
        &mut mem,
        SyscallReturn::Failure(ErrorCode::FAIL),
    );
    assert_eq!(r, Err(()));
    assert!(state.packed_syscall.is_some());
}

#[test]
fn unrecognized_mid_batch_entry_faults_whole_batch() {
    // A batch of three entries under the stop-on-error policy whose
    // second entry carries an unrecognized call number: the first entry
    // fires and completes, the second classifies as a fault, and the
    // batch is discarded.
    let boundary = SysCall::new();
    let mut mem = fresh_memory();
    write_entry(&mut mem, 0, [2, 1, 1, 0, 0]);
    write_entry(&mut mem, 1, [99, 0, 0, 0, 0]);
    write_entry(&mut mem, 2, [2, 3, 3, 0, 0]);
    let mut state = state_with_batch(3, PackedSyscallErrorPolicy::Stop);

    assert!(matches!(
        boundary.switch_to_process(START, BRK, &mut state, &mem),
        SwitchOutcome::Resolved { reason: ContextSwitchReason::SyscallFired { .. }, .. }
    ));
    boundary
        .set_syscall_return_value(START, BRK, &mut state, &mut mem, SyscallReturn::Success)
        .unwrap();
    assert!(matches!(
        boundary.switch_to_process(START, BRK, &mut state, &mem),
        SwitchOutcome::Resolved { reason: ContextSwitchReason::Fault, stack_pointer: PSP }
    ));
    assert_eq!(state.packed_syscall, None);
}

#[test]
fn whole_batch_established_and_drained_through_classification() {
    // A process traps with the batch-start sentinel describing three
    // entries under the stop-on-error policy; the second entry is
    // unrecognized. The batch is established, a success identifier is
    // optimistically pre-written into the entry-point frame, the first
    // entry fires, and the second faults and discards the batch.
    let boundary = SysCall::new();
    let mut mem = fresh_memory();
    write_entry(&mut mem, 0, [2, 1, 1, 0, 0]);
    write_entry(&mut mem, 1, [99, 0, 0, 0, 0]);
    write_entry(&mut mem, 2, [2, 3, 3, 0, 0]);
    // The trap frame: r0 = count, r1 = cursor, r2 = policy word.
    mem.write_word(PSP, 3);
    mem.write_word(PSP + 4, CURSOR);
    mem.write_word(PSP + 8, 0);
    mem.write_word(PSP + 24, 0x501);
    mem.write_word(PSP + 28, 0x0100_0000);
    let mut state = CortexMStoredState::default();

    let hw = HardwareSwitchResult {
        new_stack_pointer: PSP,
        app_fault: false,
        syscall_fired: true,
        svc_num: 0xfe,
    };
    let (reason, sp) = boundary.classify_switch_return(START, BRK, &mut state, &mut mem, hw);
    assert_eq!(sp, PSP);
    assert_eq!(
        reason,
        ContextSwitchReason::SyscallFired {
            syscall: Syscall::Command {
                driver_number: 1,
                subdriver_number: 1,
                arg0: 0,
                arg1: 0,
            },
        }
    );
    // The optimistic success identifier stands in the entry-point frame.
    assert_eq!(mem.read_word(PSP), 128);
    let ps = state.packed_syscall.unwrap();
    assert_eq!(ps.count_remaining, 3);
    assert_eq!(ps.error_policy, PackedSyscallErrorPolicy::Stop);

    boundary
        .set_syscall_return_value(START, BRK, &mut state, &mut mem, SyscallReturn::Success)
        .unwrap();
    assert!(matches!(
        boundary.switch_to_process(START, BRK, &mut state, &mem),
        SwitchOutcome::Resolved { reason: ContextSwitchReason::Fault, .. }
    ));
    assert_eq!(state.packed_syscall, None);
}
