//! The call decoder, the return-value encoding, the error-code words,
//! the error policy, and the memory model itself.

use cortexm::errorcode::ErrorCode;
use cortexm::memory::{range_ok, ProcessMemory};
use cortexm::state::PackedSyscallErrorPolicy;
use cortexm::syscall::{Syscall, SyscallReturn};
use cortexm::date_time::{Date, DayOfWeek, Month};
use cortexm::state::CortexMStoredState;
use cortexm::wifi::{Network, Security, Ssid, StationStatus};

#[test]
fn every_call_class_decodes() {
    assert_eq!(
        Syscall::from_register_arguments(0, 1, 2, 3, 4),
        Some(Syscall::Yield { which: 1, address: 2 })
    );
    assert_eq!(
        Syscall::from_register_arguments(1, 1, 2, 3, 4),
        Some(Syscall::Subscribe {
            driver_number: 1,
            subdriver_number: 2,
            upcall_ptr: 3,
            appdata: 4,
        })
    );
    assert_eq!(
        Syscall::from_register_arguments(2, 1, 2, 3, 4),
        Some(Syscall::Command {
            driver_number: 1,
            subdriver_number: 2,
            arg0: 3,
            arg1: 4,
        })
    );
    assert_eq!(
        Syscall::from_register_arguments(3, 1, 2, 3, 4),
        Some(Syscall::ReadWriteAllow {
            driver_number: 1,
            subdriver_number: 2,
            allow_address: 3,
            allow_size: 4,
        })
    );
    assert_eq!(
        Syscall::from_register_arguments(4, 1, 2, 3, 4),
        Some(Syscall::ReadOnlyAllow {
            driver_number: 1,
            subdriver_number: 2,
            allow_address: 3,
            allow_size: 4,
        })
    );
    assert_eq!(
        Syscall::from_register_arguments(5, 1, 2, 3, 4),
        Some(Syscall::Memop { operand: 1, arg0: 2 })
    );
    assert_eq!(
        Syscall::from_register_arguments(6, 1, 2, 3, 4),
        Some(Syscall::Exit { which: 1, completion_code: 2 })
    );
}

#[test]
fn unknown_call_classes_decode_as_nothing() {
    assert_eq!(Syscall::from_register_arguments(7, 1, 2, 3, 4), None);
    assert_eq!(Syscall::from_register_arguments(0xfe, 1, 2, 3, 4), None);
    assert_eq!(Syscall::from_register_arguments(0xff, 1, 2, 3, 4), None);
}

fn encoded(rv: SyscallReturn) -> (u32, u32, u32, u32) {
    let (mut r0, mut r1, mut r2, mut r3) = (0xa0, 0xa1, 0xa2, 0xa3);
    rv.encode_syscall_return(&mut r0, &mut r1, &mut r2, &mut r3);
    (r0, r1, r2, r3)
}

#[test]
fn return_values_encode_their_variant_and_payload() {
    assert_eq!(encoded(SyscallReturn::Failure(ErrorCode::FAIL)), (0, 1, 0xa2, 0xa3));
    assert_eq!(
        encoded(SyscallReturn::FailureU32(ErrorCode::SIZE, 9)),
        (1, 7, 9, 0xa3)
    );
    assert_eq!(
        encoded(SyscallReturn::FailureU32U32(ErrorCode::BUSY, 9, 10)),
        (2, 2, 9, 10)
    );
    assert_eq!(
        encoded(SyscallReturn::FailureU64(ErrorCode::INVAL, 0x1_0000_0002)),
        (3, 6, 2, 1)
    );
    assert_eq!(encoded(SyscallReturn::Success), (128, 0xa1, 0xa2, 0xa3));
    assert_eq!(encoded(SyscallReturn::SuccessU32(5)), (129, 5, 0xa2, 0xa3));
    assert_eq!(encoded(SyscallReturn::SuccessU32U32(5, 6)), (130, 5, 6, 0xa3));
    assert_eq!(encoded(SyscallReturn::SuccessU64(0x3_0000_0004)), (131, 4, 3, 0xa3));
    assert_eq!(
        encoded(SyscallReturn::SuccessU32U32U32(5, 6, 7)),
        (132, 5, 6, 7)
    );
    assert_eq!(
        encoded(SyscallReturn::SuccessU64U32(0x5_0000_0006, 8)),
        (133, 6, 5, 8)
    );
}

#[test]
fn success_is_a_variant_property() {
    assert!(SyscallReturn::Success.is_success());
    assert!(SyscallReturn::SuccessU64(0).is_success());
    assert!(!SyscallReturn::Failure(ErrorCode::FAIL).is_success());
    assert!(!SyscallReturn::FailureU64(ErrorCode::FAIL, 0).is_success());
}

#[test]
fn error_codes_start_at_one() {
    assert_eq!(ErrorCode::FAIL.as_word(), 1);
    assert_eq!(ErrorCode::BUSY.as_word(), 2);
    assert_eq!(ErrorCode::SIZE.as_word(), 7);
    assert_eq!(ErrorCode::NOACK.as_word(), 13);
}

#[test]
fn one_selects_continue_everything_else_stops() {
    assert_eq!(
        PackedSyscallErrorPolicy::from(1u32),
        PackedSyscallErrorPolicy::Continue
    );
    assert_eq!(PackedSyscallErrorPolicy::from(0u32), PackedSyscallErrorPolicy::Stop);
    assert_eq!(PackedSyscallErrorPolicy::from(2u32), PackedSyscallErrorPolicy::Stop);
    assert_eq!(
        PackedSyscallErrorPolicy::from(0xffff_ffffu32),
        PackedSyscallErrorPolicy::Stop
    );
}

#[test]
fn memory_words_read_back_what_was_written() {
    let mut mem = ProcessMemory::new(0x100, 4);
    mem.write_word(0x104, 0xdead_beef);
    assert_eq!(mem.read_word(0x104), 0xdead_beef);
    assert_eq!(mem.read_word(0x100), 0);
    assert_eq!(mem.read_word(0x10c), 0);
}

#[test]
fn range_check_guards_bounds_and_alignment() {
    assert!(range_ok(0x100, 0x200, 0x100, 0x100));
    assert!(range_ok(0x100, 0x200, 0x1fc, 4));
    assert!(!range_ok(0x100, 0x200, 0x1fc, 8));
    assert!(!range_ok(0x100, 0x200, 0xfc, 4));
    assert!(!range_ok(0x100, 0x200, 0x102, 4));
    // An enormous length cannot wrap around the address space.
    assert!(!range_ok(0x100, 0x200, 0x100, u32::MAX as u64 + 20));
}

#[test]
fn default_state_is_blank() {
    let s = CortexMStoredState::default();
    assert_eq!(s.regs, [0; 8]);
    assert_eq!((s.yield_pc, s.psr, s.psp), (0, 0, 0));
    assert_eq!(s.packed_syscall, None);
}

#[test]
fn hil_types_carry_their_fields() {
    let d = Date {
        year: 2024,
        month: Month::March,
        day: 5,
        day_of_week: DayOfWeek::Tuesday,
        hour: 12,
        minute: 30,
        seconds: 59,
    };
    assert_eq!(d.month, Month::March);
    let mut ssid = Ssid::default();
    assert_eq!(ssid.len, 0);
    ssid.value[0] = b'a';
    ssid.len = 1;
    let n = Network {
        ssid,
        rssi: 77,
        security: Some(Security::Wpa2),
    };
    assert_eq!(n.rssi, 77);
    let status = StationStatus::Connecting(n);
    assert!(matches!(status, StationStatus::Connecting(_)));
}
