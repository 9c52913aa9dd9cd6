//! The binary snapshot format: capture, restore, and hard rejection of
//! corrupted buffers.

use cortexm::boundary::SysCall;
use cortexm::errorcode::ErrorCode;
use cortexm::state::{CortexMStoredState, STATE_BUFFER_BYTES};
use cortexm::state::{usize_byte_range, usize_from_u8_slice, write_usize_to_u8_slice};
use cortexm::state::{PackedSyscall, PackedSyscallErrorPolicy};

fn sample_state() -> CortexMStoredState {
    CortexMStoredState {
        regs: [11, 22, 33, 44, 55, 66, 77, 88],
        yield_pc: 0x1234_5678,
        psr: 0x0100_0000,
        psp: 0x2000_1000,
        packed_syscall: None,
    }
}

fn snapshot_of(state: &CortexMStoredState) -> Vec<u8> {
    let boundary = SysCall::new();
    let mut out = vec![0u8; STATE_BUFFER_BYTES];
    let written = boundary.store_context(state, &mut out).unwrap();
    assert_eq!(written, STATE_BUFFER_BYTES);
    out
}

#[test]
fn store_writes_every_field_in_order() {
    let out = snapshot_of(&sample_state());
    // Metadata: version 1, size 44, tag "ctxm", all little-endian.
    assert_eq!(&out[0..4], &[1, 0, 0, 0]);
    assert_eq!(&out[4..8], &[44, 0, 0, 0]);
    assert_eq!(&out[8..12], b"ctxm");
    // Payload: resume pc, status, stack pointer, then the registers.
    assert_eq!(&out[12..16], &[0x78, 0x56, 0x34, 0x12]);
    assert_eq!(&out[16..20], &[0x00, 0x00, 0x00, 0x01]);
    assert_eq!(&out[20..24], &[0x00, 0x10, 0x00, 0x20]);
    assert_eq!(&out[24..28], &[11, 0, 0, 0]);
    assert_eq!(&out[52..56], &[88, 0, 0, 0]);
}

#[test]
fn store_rejects_short_buffer_untouched() {
    let boundary = SysCall::new();
    let mut out = vec![0xaau8; STATE_BUFFER_BYTES - 1];
    let r = boundary.store_context(&sample_state(), &mut out);
    assert_eq!(r, Err(ErrorCode::SIZE));
    assert!(out.iter().all(|&b| b == 0xaa));
}

#[test]
fn store_leaves_excess_bytes_alone() {
    let boundary = SysCall::new();
    let mut out = vec![0xaau8; STATE_BUFFER_BYTES + 10];
    let written = boundary.store_context(&sample_state(), &mut out).unwrap();
    assert_eq!(written, STATE_BUFFER_BYTES);
    assert!(out[STATE_BUFFER_BYTES..].iter().all(|&b| b == 0xaa));
}

#[test]
fn restore_recovers_every_field() {
    let state = sample_state();
    let out = snapshot_of(&state);
    let back = CortexMStoredState::try_from(&out).unwrap();
    assert_eq!(back, state);
}

#[test]
fn restore_drops_pending_batch() {
    let mut state = sample_state();
    state.packed_syscall = Some(PackedSyscall {
        count_remaining: 2,
        pointer: 0x2000_0000,
        error_policy: PackedSyscallErrorPolicy::Continue,
    });
    let out = snapshot_of(&state);
    let back = CortexMStoredState::try_from(&out).unwrap();
    assert_eq!(back.packed_syscall, None);
    assert_eq!(back.regs, state.regs);
}

#[test]
fn decode_then_encode_roundtrips_to_identical_buffer() {
    let out = snapshot_of(&sample_state());
    let back = CortexMStoredState::try_from(&out).unwrap();
    let again = snapshot_of(&back);
    assert_eq!(again, out);
}

#[test]
fn corrupt_version_byte_rejected() {
    let mut out = snapshot_of(&sample_state());
    out[0] ^= 0x01;
    assert_eq!(CortexMStoredState::try_from(&out), Err(ErrorCode::FAIL));
}

#[test]
fn corrupt_size_byte_rejected() {
    let mut out = snapshot_of(&sample_state());
    out[5] = 0x99;
    assert_eq!(CortexMStoredState::try_from(&out), Err(ErrorCode::FAIL));
}

#[test]
fn corrupt_tag_byte_rejected() {
    let mut out = snapshot_of(&sample_state());
    out[11] = b'M';
    assert_eq!(CortexMStoredState::try_from(&out), Err(ErrorCode::FAIL));
}

#[test]
fn wrong_length_rejected() {
    let out = snapshot_of(&sample_state());
    assert_eq!(
        CortexMStoredState::try_from(&out[..STATE_BUFFER_BYTES - 1]),
        Err(ErrorCode::FAIL)
    );
    let mut long = out.clone();
    long.push(0);
    assert_eq!(CortexMStoredState::try_from(&long), Err(ErrorCode::FAIL));
}

#[test]
fn word_helpers_read_and_write_little_endian() {
    let range = usize_byte_range(3);
    assert_eq!(range, 12..16);
    let mut buf = vec![0u8; 16];
    write_usize_to_u8_slice(0xdead_beef, &mut buf, 3);
    assert_eq!(&buf[12..16], &[0xef, 0xbe, 0xad, 0xde]);
    assert_eq!(usize_from_u8_slice(&buf, 3), Ok(0xdead_beef));
    assert_eq!(usize_from_u8_slice(&buf, 4), Err(ErrorCode::SIZE));
}
