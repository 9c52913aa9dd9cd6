//! The per-process saved register record and its binary snapshot format.
//!
//! The kernel keeps one [`CortexMStoredState`] per process while the
//! process is not running. The record can be captured into a byte buffer
//! (see [`crate::boundary::SysCall::store_context`]) and read back
//! ([`CortexMStoredState::try_from`]): a fixed-size little-endian record,
//! versioned and tagged, where any field mismatch is a hard reject.

use crate::errorcode::ErrorCode;
use vstd::arithmetic::div_mod::lemma_fundamental_div_mod;
use vstd::bytes::{
    lemma_auto_spec_u32_to_from_le_bytes, spec_u32_from_le_bytes, spec_u32_to_le_bytes,
};
use vstd::prelude::*;

verus! {

/// What happens when one of the syscalls within a packed system call
/// fails.
#[derive(Clone, Copy, Debug, PartialEq, Eq, Structural)]
pub enum PackedSyscallErrorPolicy {
    /// Stop executing the pack and report the failure and the number of
    /// entries not executed to the application. This is the default.
    Stop,
    /// Keep executing the rest of the pack until every entry has run.
    Continue,
}

/// The policy a raw argument word selects: `1` selects
/// [`PackedSyscallErrorPolicy::Continue`], anything else the default.
pub open spec fn spec_policy_from_word(w: u32) -> PackedSyscallErrorPolicy {
    if w == 1 {
        PackedSyscallErrorPolicy::Continue
    } else {
        PackedSyscallErrorPolicy::Stop
    }
}

impl From<u32> for PackedSyscallErrorPolicy {
    fn from(original: u32) -> (r: Self) {
        match original {
            1 => PackedSyscallErrorPolicy::Continue,
            _ => PackedSyscallErrorPolicy::Stop,
        }
    }
}

impl vstd::std_specs::convert::FromSpecImpl<u32> for PackedSyscallErrorPolicy {
    open spec fn obeys_from_spec() -> bool {
        true
    }

    open spec fn from_spec(original: u32) -> Self {
        spec_policy_from_word(original)
    }
}

/// An in-progress batch of packed system calls.
///
/// A process describes several calls in one contiguous region of its own
/// memory — five words per entry: the call number and four arguments —
/// and issues a single trap. The kernel drains the entries one by one
/// without leaving kernel mode. `pointer` and `count_remaining` always
/// describe the next entry to run, never the last one attempted.
#[derive(Clone, Copy, Debug, PartialEq, Eq, Structural)]
pub struct PackedSyscall {
    /// The number of syscalls that still have to be executed. At least 1
    /// while the batch exists; a drained batch is discarded, not kept at
    /// zero.
    pub count_remaining: u32,
    /// The address, inside process memory, of the next entry's five-word
    /// argument frame.
    pub pointer: u32,
    /// What happens when one entry of the batch fails.
    pub error_policy: PackedSyscallErrorPolicy,
}

/// Size in bytes of one packed-syscall entry: five words.
pub const PACKED_ENTRY_BYTES: u32 = 20;

/// All of the state the kernel must keep for a process while the process
/// is not executing.
#[derive(Clone, Copy, Debug, PartialEq, Eq)]
pub struct CortexMStoredState {
    /// The eight general-purpose registers the hardware exception frame
    /// does not capture.
    pub regs: [u32; 8],
    /// Program counter to resume at when control returns from a suspend
    /// point that has no hardware-saved return address.
    pub yield_pc: u32,
    /// Saved processor status flags.
    pub psr: u32,
    /// Current top of the process's private stack.
    pub psp: u32,
    /// The in-progress packed-syscall batch, while one is being drained.
    pub packed_syscall: Option<PackedSyscall>,
}

impl CortexMStoredState {
    /// Validity of the record: an existing batch always has at least one
    /// entry left — a drained or aborted batch is discarded rather than
    /// kept at zero.
    pub open spec fn wf(&self) -> bool {
        match self.packed_syscall {
            Some(ps) => ps.count_remaining >= 1,
            None => true,
        }
    }
}

impl Default for CortexMStoredState {
    /// A blank record: everything zero, no pending batch.
    fn default() -> (s: Self)
        ensures
            s.regs@ =~= Seq::<u32>::new(8, |i: int| 0u32),
            s.yield_pc == 0,
            s.psr == 0,
            s.psp == 0,
            s.packed_syscall is None,
    {
        CortexMStoredState {
            regs: [0u32; 8],
            yield_pc: 0,
            psr: 0,
            psp: 0,
            packed_syscall: None,
        }
    }
}

/// Size in bytes of one word of the snapshot format.
pub const STATE_WORD_BYTES: usize = 4;

/// Format version of the snapshot format.
pub const VERSION: u32 = 1;

/// The size recorded in a snapshot's size field: the eleven payload words
/// (resume program counter, status register, stack pointer, eight saved
/// registers) in bytes.
pub const STORED_STATE_SIZE: u32 = 44;

/// The magic value of a snapshot's tag field: the bytes `c`, `t`, `x`,
/// `m` packed into one little-endian word.
pub const TAG_WORD: u32 = 0x6d78_7463;

/// Number of metadata words (version, size, tag) before the payload.
pub const METADATA_WORDS: usize = 3;

/// Word index of the version field.
pub const VERSION_IDX: usize = 0;

/// Word index of the size field.
pub const SIZE_IDX: usize = 1;

/// Word index of the tag field.
pub const TAG_IDX: usize = 2;

/// Word index of the resume program counter.
pub const YIELDPC_IDX: usize = 3;

/// Word index of the saved status register.
pub const PSR_IDX: usize = 4;

/// Word index of the saved stack pointer.
pub const PSP_IDX: usize = 5;

/// Word index of the first saved general-purpose register.
pub const REGS_IDX: usize = 6;

/// Number of words of a whole snapshot: metadata plus payload.
pub const STATE_WORDS: usize = 14;

/// Size in bytes of a whole snapshot.
pub const STATE_BUFFER_BYTES: usize = 56;

/// The word stored little-endian at word index `k` of a byte buffer.
pub open spec fn spec_word_at_index(b: Seq<u8>, k: int) -> u32 {
    spec_u32_from_le_bytes(b.subrange(4 * k, 4 * k + 4))
}

/// The fourteen words of a record's snapshot, in order: version, size,
/// tag, resume program counter, status register, stack pointer, then the
/// eight saved registers. A pending batch is intentionally not captured.
pub open spec fn spec_state_words(s: CortexMStoredState) -> Seq<u32> {
    seq![VERSION, STORED_STATE_SIZE, TAG_WORD, s.yield_pc, s.psr, s.psp] + s.regs@
}

/// The snapshot bytes of a record: its fourteen words, each little-endian.
pub open spec fn spec_encoded_state(s: CortexMStoredState) -> Seq<u8> {
    Seq::new(
        STATE_BUFFER_BYTES as nat,
        |i: int| spec_u32_to_le_bytes(spec_state_words(s)[i / 4])[i % 4],
    )
}

/// Whether a byte buffer is acceptable to decode: exactly the expected
/// size, and version, size and tag fields all match. Any mismatch is a
/// hard reject with no partial acceptance.
pub open spec fn spec_header_ok(b: Seq<u8>) -> bool {
    &&& b.len() == STATE_BUFFER_BYTES
    &&& spec_word_at_index(b, VERSION_IDX as int) == VERSION
    &&& spec_word_at_index(b, SIZE_IDX as int) == STORED_STATE_SIZE
    &&& spec_word_at_index(b, TAG_IDX as int) == TAG_WORD
}

/// Whether `s` is the record that the snapshot bytes `b` decode to: the
/// header is acceptable, every payload field holds the matching word, and
/// no batch is pending — batch state is never serialized, so a decoded
/// record always starts with none.
pub open spec fn spec_decodes_to(b: Seq<u8>, s: CortexMStoredState) -> bool {
    &&& spec_header_ok(b)
    &&& s.yield_pc == spec_word_at_index(b, YIELDPC_IDX as int)
    &&& s.psr == spec_word_at_index(b, PSR_IDX as int)
    &&& s.psp == spec_word_at_index(b, PSP_IDX as int)
    &&& forall|i: int|
        0 <= i < 8 ==> s.regs@[i] == spec_word_at_index(b, REGS_IDX + i)
    &&& s.packed_syscall is None
}

/// The byte range of the word at word index `index` of a snapshot buffer.
pub fn usize_byte_range(index: usize) -> (r: core::ops::Range<usize>)
    requires
        4 * index + 4 <= usize::MAX,
    ensures
        r.start == 4 * index,
        r.end == 4 * index + 4,
{
    index * STATE_WORD_BYTES..(index + 1) * STATE_WORD_BYTES
}

/// Read the little-endian word at word index `index` of `slice`, or
/// report `SIZE` when the buffer has no such word.
pub fn usize_from_u8_slice(slice: &[u8], index: usize) -> (r: Result<u32, ErrorCode>)
    ensures
        4 * index + 4 <= slice@.len() ==> r == Ok::<u32, ErrorCode>(
            spec_word_at_index(slice@, index as int),
        ),
        4 * index + 4 > slice@.len() ==> r == Err::<u32, ErrorCode>(ErrorCode::SIZE),
{
    let n = slice.len();
    proof {
        lemma_fundamental_div_mod(n as int, 4);
        vstd::arithmetic::div_mod::lemma_mod_bound(n as int, 4);
    }
    if index < n / 4 {
        let sub = vstd::slice::slice_subrange(slice, 4 * index, 4 * index + 4);
        Ok(vstd::bytes::u32_from_le_bytes(sub))
    } else {
        Err(ErrorCode::SIZE)
    }
}

/// Write `val` little-endian into the word at word index `index` of
/// `slice`. The caller must have checked that the buffer has such a word.
pub fn write_usize_to_u8_slice(val: u32, slice: &mut Vec<u8>, index: usize)
    requires
        4 * index + 4 <= old(slice)@.len(),
    ensures
        final(slice)@.len() == old(slice)@.len(),
        final(slice)@.subrange(4 * index, 4 * index + 4) == spec_u32_to_le_bytes(val),
        forall|j: int|
            0 <= j < old(slice)@.len() && !(4 * index <= j < 4 * index + 4) ==> final(slice)@[j]
                == old(slice)@[j],
{
    let n = slice.len();
    let bytes = vstd::bytes::u32_to_le_bytes(val);
    slice[4 * index] = bytes[0];
    slice[4 * index + 1] = bytes[1];
    slice[4 * index + 2] = bytes[2];
    slice[4 * index + 3] = bytes[3];
    proof {
        assert(final(slice)@.subrange(4 * index, 4 * index + 4) =~= spec_u32_to_le_bytes(val));
    }
}

impl CortexMStoredState {
    /// Decode a record from snapshot bytes. The buffer must have exactly
    /// the expected size and matching version, size and tag fields; any
    /// mismatch is rejected as `FAIL` with no partial acceptance. The
    /// decoded record starts with no pending batch.
    pub fn try_from(ss: &[u8]) -> (r: Result<CortexMStoredState, ErrorCode>)
        ensures
            spec_header_ok(ss@) ==> r is Ok && spec_decodes_to(ss@, r->Ok_0),
            !spec_header_ok(ss@) ==> r == Err::<CortexMStoredState, ErrorCode>(ErrorCode::FAIL),
    {
        if ss.len() == STATE_BUFFER_BYTES {
            let version = usize_from_u8_slice(ss, VERSION_IDX).unwrap();
            let size = usize_from_u8_slice(ss, SIZE_IDX).unwrap();
            let tag = usize_from_u8_slice(ss, TAG_IDX).unwrap();
            if version == VERSION && size == STORED_STATE_SIZE && tag == TAG_WORD {
                let mut regs: [u32; 8] = [0u32; 8];
                let mut i: usize = 0;
                while i < 8
                    invariant
                        i <= 8,
                        ss@.len() == STATE_BUFFER_BYTES,
                        forall|j: int|
                            0 <= j < i ==> regs@[j] == spec_word_at_index(ss@, REGS_IDX + j),
                    decreases 8 - i,
                {
                    regs[i] = usize_from_u8_slice(ss, REGS_IDX + i).unwrap();
                    i = i + 1;
                }
                Ok(
                    CortexMStoredState {
                        regs,
                        yield_pc: usize_from_u8_slice(ss, YIELDPC_IDX).unwrap(),
                        psr: usize_from_u8_slice(ss, PSR_IDX).unwrap(),
                        psp: usize_from_u8_slice(ss, PSP_IDX).unwrap(),
                        packed_syscall: None,
                    },
                )
            } else {
                Err(ErrorCode::FAIL)
            }
        } else {
            Err(ErrorCode::FAIL)
        }
    }
}

/// Byte `4 * k + j` of a snapshot is byte `j` of the little-endian
/// encoding of word `k`.
pub proof fn lemma_encoded_byte(s: CortexMStoredState, k: int, j: int)
    requires
        0 <= k < STATE_WORDS,
        0 <= j < 4,
    ensures
        spec_encoded_state(s)[4 * k + j] == spec_u32_to_le_bytes(spec_state_words(s)[k])[j],
{
    let i = 4 * k + j;
    assert(i / 4 == k && i % 4 == j) by (nonlinear_arith)
        requires
            i == 4 * k + j,
            0 <= j < 4,
            0 <= k,
    ;
}

/// The words of a snapshot read back as the words they were written from.
pub proof fn lemma_encoded_words(s: CortexMStoredState, k: int)
    requires
        0 <= k < STATE_WORDS,
    ensures
        spec_word_at_index(spec_encoded_state(s), k) == spec_state_words(s)[k],
{
    lemma_auto_spec_u32_to_from_le_bytes();
    let b = spec_encoded_state(s);
    let w = spec_state_words(s)[k];
    assert forall|j: int| 0 <= j < 4 implies b.subrange(4 * k, 4 * k + 4)[j] == spec_u32_to_le_bytes(
        w,
    )[j] by {
        lemma_encoded_byte(s, k, j);
    }
    assert(b.subrange(4 * k, 4 * k + 4) =~= spec_u32_to_le_bytes(w));
}

/// A snapshot taken of any record decodes back to the same record, with
/// the one intentional exception of a pending batch, which the snapshot
/// format does not carry.
pub proof fn lemma_encode_decodes_back(s: CortexMStoredState, t: CortexMStoredState)
    requires
        t.regs == s.regs,
        t.yield_pc == s.yield_pc,
        t.psr == s.psr,
        t.psp == s.psp,
        t.packed_syscall is None,
    ensures
        spec_decodes_to(spec_encoded_state(s), t),
{
    assert forall|k: int| 0 <= k < STATE_WORDS implies spec_word_at_index(
        spec_encoded_state(s),
        k,
    ) == spec_state_words(s)[k] by {
        lemma_encoded_words(s, k);
    }
}

/// Decoding and re-encoding round-trips to an identical buffer: any
/// record a buffer decodes to encodes back to exactly that buffer.
pub proof fn lemma_decode_encode_roundtrip(b: Seq<u8>, s: CortexMStoredState)
    requires
        spec_decodes_to(b, s),
    ensures
        spec_encoded_state(s) == b,
{
    lemma_auto_spec_u32_to_from_le_bytes();
    let e = spec_encoded_state(s);
    assert forall|k: int| 0 <= k < STATE_WORDS implies spec_state_words(s)[k] == spec_word_at_index(
        b,
        k,
    ) by {
    }
    assert forall|i: int| 0 <= i < STATE_BUFFER_BYTES implies e[i] == b[i] by {
        lemma_fundamental_div_mod(i, 4);
        let k = i / 4;
        let j = i % 4;
        lemma_encoded_byte(s, k, j);
        assert(spec_state_words(s)[k] == spec_word_at_index(b, k));
        assert(spec_u32_to_le_bytes(spec_word_at_index(b, k)) == b.subrange(4 * k, 4 * k + 4));
        assert(b.subrange(4 * k, 4 * k + 4)[j] == b[i]);
    }
    assert(e =~= b);
}

/// Corrupting any single byte of the version, size or tag field of an
/// acceptable buffer makes decoding reject the buffer.
pub proof fn lemma_header_corruption_rejected(b1: Seq<u8>, b2: Seq<u8>, i: int)
    requires
        spec_header_ok(b1),
        b2.len() == b1.len(),
        0 <= i < 4 * METADATA_WORDS,
        b2[i] != b1[i],
        forall|j: int| 0 <= j < b1.len() && j != i ==> b2[j] == b1[j],
    ensures
        !spec_header_ok(b2),
{
    lemma_auto_spec_u32_to_from_le_bytes();
    lemma_fundamental_div_mod(i, 4);
    let k = i / 4;
    let j = i % 4;
    let s1 = b1.subrange(4 * k, 4 * k + 4);
    let s2 = b2.subrange(4 * k, 4 * k + 4);
    assert(s2[j] == b2[i] && s1[j] == b1[i]);
    assert(s1 != s2);
    if spec_word_at_index(b2, k) == spec_word_at_index(b1, k) {
        assert(spec_u32_to_le_bytes(spec_u32_from_le_bytes(s1)) == s1);
        assert(spec_u32_to_le_bytes(spec_u32_from_le_bytes(s2)) == s2);
        assert(false);
    }
}

} // verus!
