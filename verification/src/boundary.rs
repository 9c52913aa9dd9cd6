//! The context-switch engine: the architecture-specific side of the
//! userspace/kernel boundary.
//!
//! [`SysCall`] performs everything around the privilege transition that is
//! decidable from kernel state and process memory: initializing a
//! process's stored state, writing syscall return values into the right
//! frame, rewriting the resume frame for an upcall, draining a
//! packed-syscall batch, and classifying why control returned to the
//! kernel. The one step it cannot perform is the CPU-level transition
//! itself; the caller runs it and reports the outcome as a
//! [`HardwareSwitchResult`].
//!
//! Every access into process memory is validated against the accessible
//! window `[accessible_memory_start, app_brk)` immediately before it is
//! made, never cached: an entry of a packed batch can itself shrink the
//! window.

use crate::errorcode::ErrorCode;
use crate::memory::{
    range_ok, spec_range_ok, spec_window_in, spec_word_in, spec_word_updated, ProcessMemory,
};
use crate::state::{
    spec_encoded_state, spec_policy_from_word, spec_state_words, write_usize_to_u8_slice,
    CortexMStoredState, PackedSyscall, PackedSyscallErrorPolicy, PACKED_ENTRY_BYTES, PSP_IDX,
    PSR_IDX, REGS_IDX, SIZE_IDX, STATE_BUFFER_BYTES, STORED_STATE_SIZE, TAG_IDX, TAG_WORD,
    VERSION, VERSION_IDX, YIELDPC_IDX,
};
use crate::syscall::{
    spec_encoded_return, spec_is_success, spec_syscall_from_registers, ContextSwitchReason,
    Syscall, SyscallReturn, SYSCALL_RETURN_VARIANT_FAILURE_U32, SYSCALL_RETURN_VARIANT_SUCCESS,
};
use vstd::prelude::*;

verus! {

/// Size in bytes of a hardware exception frame: the eight words `r0, r1,
/// r2, r3, r12, lr, pc, status` the hardware stacks on a trap.
pub const SVC_FRAME_SIZE: u32 = 32;

/// Byte offset of the saved `lr` word inside an exception frame.
pub const FRAME_LR_OFFSET: u32 = 20;

/// Byte offset of the saved `pc` word inside an exception frame.
pub const FRAME_PC_OFFSET: u32 = 24;

/// Byte offset of the saved status word inside an exception frame.
pub const FRAME_PSR_OFFSET: u32 = 28;

/// The status-register value a fresh process starts with: only the
/// instruction-set-mode bit of the architecture's idle state set.
pub const INITIAL_PSR: u32 = 0x0100_0000;

/// The reserved call number a process uses to start a packed-syscall
/// batch, together with a positive first argument.
pub const PACKED_SYSCALL_SVC_NUM: u8 = 0xfe;

/// A function to run in a process, with the four argument words to hand
/// it: what the kernel rewrites a process's resume frame to when it
/// schedules an upcall.
#[derive(Clone, Copy, Debug, PartialEq, Eq, Structural)]
pub struct FunctionCall {
    /// First argument of the call.
    pub argument0: u32,
    /// Second argument of the call.
    pub argument1: u32,
    /// Third argument of the call.
    pub argument2: u32,
    /// Fourth argument of the call.
    pub argument3: u32,
    /// Address of the function to run.
    pub pc: u32,
}

/// Implementation of the userspace/kernel boundary for the Cortex-M
/// non-floating-point architecture.
pub struct SysCall();

impl SysCall {
    /// A new boundary instance.
    pub fn new() -> SysCall {
        SysCall()
    }

    /// The smallest accessible-memory region a process can be started
    /// with: room for one hardware exception frame.
    pub fn initial_process_app_brk_size(&self) -> (r: u32)
        ensures
            r == SVC_FRAME_SIZE,
    {
        SVC_FRAME_SIZE
    }

    /// Initialize the stored state of a fresh process: zero the saved
    /// registers and resume program counter, set the status register to
    /// the fixed initial value, and place the stack pointer one hardware
    /// frame below `app_brk`. Fails when the accessible region is smaller
    /// than one frame. Safe to call again on process restart.
    pub fn initialize_process(
        &self,
        accessible_memory_start: u32,
        app_brk: u32,
        state: &mut CortexMStoredState,
    ) -> (r: Result<(), ()>)
        requires
            accessible_memory_start <= app_brk,
        ensures
            forall|i: int| 0 <= i < 8 ==> final(state).regs@[i] == 0u32,
            final(state).yield_pc == 0,
            final(state).psr == INITIAL_PSR,
            final(state).packed_syscall == old(state).packed_syscall,
            app_brk - accessible_memory_start >= SVC_FRAME_SIZE ==> r is Ok && final(state).psp
                == app_brk - SVC_FRAME_SIZE,
            app_brk - accessible_memory_start < SVC_FRAME_SIZE ==> r is Err && final(state).psp
                == app_brk,
    {
        state.regs = [0u32; 8];
        state.yield_pc = 0;
        state.psr = INITIAL_PSR;
        state.psp = app_brk;
        if app_brk - accessible_memory_start < SVC_FRAME_SIZE {
            return Err(());
        }
        state.psp = state.psp - SVC_FRAME_SIZE;
        Ok(())
    }

    /// Rewrite the top-of-stack hardware frame so that, on resume, the
    /// process runs `callback` instead of returning to where it trapped:
    /// the frame's `pc` gets the callback's entry with the architecture's
    /// instruction-set-mode bit set, `lr` the saved resume point with the
    /// same bit set, `r0` to `r3` the four arguments, and the status word
    /// the saved status register. The saved `r12` word is not touched:
    /// the call convention does not require the kernel to preserve it
    /// across this rewrite. Fails without touching memory when the frame
    /// does not lie inside the accessible window.
    pub fn set_process_function(
        &self,
        accessible_memory_start: u32,
        app_brk: u32,
        state: &mut CortexMStoredState,
        mem: &mut ProcessMemory,
        callback: FunctionCall,
    ) -> (r: Result<(), ()>)
        requires
            old(mem).spec_holds_window(accessible_memory_start, app_brk),
        ensures
            *final(state) == *old(state),
            final(mem).base == old(mem).base,
            final(mem).words@.len() == old(mem).words@.len(),
            r is Ok <==> spec_range_ok(
                accessible_memory_start,
                app_brk,
                old(state).psp,
                SVC_FRAME_SIZE as int,
            ),
            r is Ok ==> final(mem).words@ == spec_frame_after_function_call(
                old(mem),
                *old(state),
                callback,
            ),
            r is Err ==> final(mem).words@ == old(mem).words@,
    {
        if !range_ok(accessible_memory_start, app_brk, state.psp, SVC_FRAME_SIZE as u64) {
            return Err(());
        }
        proof {
            crate::memory::lemma_range_words_in_memory(
                mem,
                accessible_memory_start,
                app_brk,
                state.psp,
                SVC_FRAME_SIZE as int,
            );
            lemma_frame_word_addresses(state.psp, 8);
        }
        mem.write_word(state.psp + FRAME_PSR_OFFSET, state.psr);
        mem.write_word(state.psp + FRAME_PC_OFFSET, callback.pc | 1);
        mem.write_word(state.psp + FRAME_LR_OFFSET, state.yield_pc | 1);
        mem.write_word(state.psp + 12, callback.argument3);
        mem.write_word(state.psp + 8, callback.argument2);
        mem.write_word(state.psp + 4, callback.argument1);
        mem.write_word(state.psp, callback.argument0);
        Ok(())
    }

    /// Capture a record into a snapshot buffer (see
    /// [`spec_encoded_state`]): every field written little-endian in the
    /// fixed order, returning the exact number of bytes written. Fails
    /// with `SIZE`, leaving the buffer untouched, when the buffer is
    /// smaller than a whole snapshot.
    pub fn store_context(&self, state: &CortexMStoredState, out: &mut Vec<u8>) -> (r: Result<
        usize,
        ErrorCode,
    >)
        ensures
            old(out)@.len() >= STATE_BUFFER_BYTES ==> {
                &&& r == Ok::<usize, ErrorCode>(STATE_BUFFER_BYTES)
                &&& final(out)@.len() == old(out)@.len()
                &&& final(out)@.subrange(0, STATE_BUFFER_BYTES as int) == spec_encoded_state(
                    *state,
                )
                &&& forall|j: int|
                    STATE_BUFFER_BYTES <= j < old(out)@.len() ==> final(out)@[j] == old(out)@[j]
            },
            old(out)@.len() < STATE_BUFFER_BYTES ==> r == Err::<usize, ErrorCode>(ErrorCode::SIZE)
                && final(out)@ == old(out)@,
    {
        if out.len() >= STATE_BUFFER_BYTES {
            write_state_word(state, out, VERSION_IDX, VERSION);
            write_state_word(state, out, SIZE_IDX, STORED_STATE_SIZE);
            write_state_word(state, out, TAG_IDX, TAG_WORD);
            write_state_word(state, out, YIELDPC_IDX, state.yield_pc);
            write_state_word(state, out, PSR_IDX, state.psr);
            write_state_word(state, out, PSP_IDX, state.psp);
            let mut i: usize = 0;
            while i < 8
                invariant
                    i <= 8,
                    out@.len() == old(out)@.len(),
                    out@.len() >= STATE_BUFFER_BYTES,
                    forall|j: int|
                        0 <= j < 4 * (REGS_IDX + i) ==> out@[j] == spec_encoded_state(*state)[j],
                    forall|j: int|
                        4 * (REGS_IDX + i) <= j < out@.len() ==> out@[j] == old(out)@[j],
                decreases 8 - i,
            {
                proof {
                    assert(spec_state_words(*state)[REGS_IDX + i] == state.regs@[i as int]);
                }
                write_state_word(state, out, REGS_IDX + i, state.regs[i]);
                i = i + 1;
            }
            proof {
                assert(out@.subrange(0, STATE_BUFFER_BYTES as int) =~= spec_encoded_state(*state));
            }
            Ok(STATE_BUFFER_BYTES)
        } else {
            Err(ErrorCode::SIZE)
        }
    }
}

/// How the batcher classifies the five words of one packed entry: the
/// call number is the low byte of the first word, the four arguments are
/// the other words. An unrecognized call number is a process fault; so is
/// a suspend call anywhere but in the batch's final entry — a process may
/// only suspend as the last thing a batch does.
pub open spec fn spec_packed_entry_reason(
    count_remaining: u32,
    w0: u32,
    w1: u32,
    w2: u32,
    w3: u32,
    w4: u32,
) -> ContextSwitchReason {
    match spec_syscall_from_registers((w0 & 0xff) as u8, w1, w2, w3, w4) {
        Some(s) => if (s is Yield) && count_remaining != 1 {
            ContextSwitchReason::Fault
        } else {
            ContextSwitchReason::SyscallFired { syscall: s }
        },
        None => ContextSwitchReason::Fault,
    }
}

/// What [`SysCall::next_packed_syscall`] returns: nothing when no batch
/// is pending; otherwise the classification of the next entry, after
/// re-validating that the whole remaining batch region lies inside the
/// accessible window.
pub open spec fn spec_next_packed_reason(
    start: u32,
    brk: u32,
    state: CortexMStoredState,
    base: u32,
    words: Seq<u32>,
) -> Option<ContextSwitchReason> {
    match state.packed_syscall {
        None => None,
        Some(ps) => Some(
            if !spec_range_ok(
                start,
                brk,
                ps.pointer,
                ps.count_remaining as int * PACKED_ENTRY_BYTES as int,
            ) {
                ContextSwitchReason::Fault
            } else {
                spec_packed_entry_reason(
                    ps.count_remaining,
                    spec_word_in(base, words, ps.pointer),
                    spec_word_in(base, words, (ps.pointer + 4) as u32),
                    spec_word_in(base, words, (ps.pointer + 8) as u32),
                    spec_word_in(base, words, (ps.pointer + 12) as u32),
                    spec_word_in(base, words, (ps.pointer + 16) as u32),
                )
            },
        ),
    }
}

/// The stored state after a batch check that classified `r`: a fault
/// discards the batch — the fault path never leaves a batch
/// half-consumed — and every other outcome keeps the state as it was.
pub open spec fn spec_state_after_packed_check(
    state: CortexMStoredState,
    r: Option<ContextSwitchReason>,
) -> CortexMStoredState {
    if r == Some(ContextSwitchReason::Fault) {
        CortexMStoredState { packed_syscall: None, ..state }
    } else {
        state
    }
}

impl SysCall {
    /// Classify the next entry of the pending packed-syscall batch, or
    /// return nothing when no batch is pending and the caller must fall
    /// through to a real switch.
    ///
    /// The batch region's bounds are re-validated on every call, because
    /// an earlier entry of the same batch may itself have changed the
    /// accessible window. An out-of-bounds region, an unrecognized entry
    /// and a mid-batch suspend all classify as a fault and discard the
    /// batch. The cursor is not advanced here — that happens only in
    /// [`SysCall::set_syscall_return_value`] once the kernel has produced
    /// a result, so that the batch state always describes the next entry
    /// to run, never the last one attempted.
    pub fn next_packed_syscall(
        &self,
        accessible_memory_start: u32,
        app_brk: u32,
        state: &mut CortexMStoredState,
        mem: &ProcessMemory,
    ) -> (r: Option<ContextSwitchReason>)
        requires
            old(state).wf(),
            mem.spec_holds_window(accessible_memory_start, app_brk),
        ensures
            r == spec_next_packed_reason(
                accessible_memory_start,
                app_brk,
                *old(state),
                mem.base,
                mem.words@,
            ),
            *final(state) == spec_state_after_packed_check(*old(state), r),
            final(state).wf(),
    {
        let ps_opt = state.packed_syscall;
        match ps_opt {
            None => None,
            Some(ps) => {
                let nbytes: u64 = (ps.count_remaining as u64) * (PACKED_ENTRY_BYTES as u64);
                let reason: ContextSwitchReason = if range_ok(
                    accessible_memory_start,
                    app_brk,
                    ps.pointer,
                    nbytes,
                ) {
                    proof {
                        assert(nbytes >= PACKED_ENTRY_BYTES) by (nonlinear_arith)
                            requires
                                ps.count_remaining >= 1,
                                nbytes == ps.count_remaining as int * PACKED_ENTRY_BYTES as int,
                        ;
                        crate::memory::lemma_range_words_in_memory(
                            mem,
                            accessible_memory_start,
                            app_brk,
                            ps.pointer,
                            nbytes as int,
                        );
                        lemma_frame_word_addresses(ps.pointer, 5);
                    }
                    let w0 = mem.read_word(ps.pointer);
                    let w1 = mem.read_word(ps.pointer + 4);
                    let w2 = mem.read_word(ps.pointer + 8);
                    let w3 = mem.read_word(ps.pointer + 12);
                    let w4 = mem.read_word(ps.pointer + 16);
                    let svc_num = #[verifier::truncate] ((w0 & 0xff) as u8);
                    match Syscall::from_register_arguments(svc_num, w1, w2, w3, w4) {
                        Some(s) => {
                            if matches!(s, Syscall::Yield { .. }) && ps.count_remaining != 1 {
                                ContextSwitchReason::Fault
                            } else {
                                ContextSwitchReason::SyscallFired { syscall: s }
                            }
                        },
                        None => ContextSwitchReason::Fault,
                    }
                } else {
                    ContextSwitchReason::Fault
                };
                if matches!(reason, ContextSwitchReason::Fault) {
                    state.packed_syscall = None;
                }
                Some(reason)
            },
        }
    }
}

/// A suspend call may only stand as a batch's final entry: for the entry
/// at position `k` of a batch of `n` — so with `n + 1 - k` entries still
/// to run — a decoded suspend call classifies as a fault at every
/// position before the last, and fires as a syscall at the last.
pub proof fn lemma_suspend_only_as_final_entry(
    n: int,
    k: int,
    count_remaining: u32,
    w0: u32,
    w1: u32,
    w2: u32,
    w3: u32,
    w4: u32,
)
    requires
        1 <= k <= n,
        count_remaining == n + 1 - k,
        (spec_syscall_from_registers((w0 & 0xff) as u8, w1, w2, w3, w4) matches Some(s) && s
            is Yield),
    ensures
        k < n ==> spec_packed_entry_reason(count_remaining, w0, w1, w2, w3, w4)
            == ContextSwitchReason::Fault,
        k == n ==> spec_packed_entry_reason(count_remaining, w0, w1, w2, w3, w4) == (
        ContextSwitchReason::SyscallFired {
            syscall: spec_syscall_from_registers((w0 & 0xff) as u8, w1, w2, w3, w4)->Some_0,
        }),
{
}

/// The memory words after [`SysCall::set_process_function`] succeeds: the
/// exception frame at the stack pointer rewritten to enter the callback,
/// with the `r12` word untouched.
pub open spec fn spec_frame_after_function_call(
    mem: &ProcessMemory,
    state: CortexMStoredState,
    callback: FunctionCall,
) -> Seq<u32> {
    let psp = state.psp;
    mem.words@.update(mem.spec_word_index((psp + FRAME_PSR_OFFSET) as u32), state.psr).update(
        mem.spec_word_index((psp + FRAME_PC_OFFSET) as u32),
        callback.pc | 1,
    ).update(mem.spec_word_index((psp + FRAME_LR_OFFSET) as u32), state.yield_pc | 1).update(
        mem.spec_word_index((psp + 12) as u32),
        callback.argument3,
    ).update(mem.spec_word_index((psp + 8) as u32), callback.argument2).update(
        mem.spec_word_index((psp + 4) as u32),
        callback.argument1,
    ).update(mem.spec_word_index(psp), callback.argument0)
}

/// The word addresses of a region of `nwords` words at `addr` are the
/// region base plus the word offsets.
proof fn lemma_frame_word_addresses(addr: u32, nwords: int)
    requires
        addr + 4 * nwords <= u32::MAX + 1,
    ensures
        forall|k: int|
            0 <= k < nwords ==> #[trigger] ((addr + 4 * k) as u32) as int == addr + 4 * k,
{
}

/// The result of delivering a syscall return value: whether the delivery
/// was accepted, the stored state after it, and the process-memory words
/// after it.
pub struct SyscallReturnOutcome {
    /// Whether the delivery was accepted.
    pub ok: bool,
    /// The stored state after the delivery.
    pub state: CortexMStoredState,
    /// The process-memory words after the delivery.
    pub words: Seq<u32>,
}

/// What [`SysCall::set_syscall_return_value`] does, as a function of the
/// stored state and the process-memory words.
///
/// With a batch pending, the return value is encoded into the current
/// entry's argument words — the four words behind the entry's call
/// number — and the batch advances by one entry. A failure value under
/// the stop-on-error policy additionally overwrites the entry-point
/// frame at the stack pointer with the distinguished failure identifier
/// and the count of entries not executed, and discards the rest of the
/// batch. Without a batch, the return value is encoded into the four
/// argument words of the exception frame at the stack pointer. The
/// delivery is refused, with nothing written, when the destination
/// region — and, for a stop-on-error failure, the entry-point frame —
/// does not lie inside the accessible window.
pub open spec fn spec_set_syscall_return_value(
    start: u32,
    brk: u32,
    state: CortexMStoredState,
    base: u32,
    words: Seq<u32>,
    rv: SyscallReturn,
) -> SyscallReturnOutcome {
    match state.packed_syscall {
        Some(ps) => {
            let entry_ok = spec_range_ok(
                start,
                brk,
                ps.pointer,
                ps.count_remaining as int * PACKED_ENTRY_BYTES as int,
            );
            let aborting = !spec_is_success(rv) && ps.error_policy
                == PackedSyscallErrorPolicy::Stop;
            let abort_frame_ok = spec_range_ok(start, brk, state.psp, 8);
            if !entry_ok || (aborting && !abort_frame_ok) {
                SyscallReturnOutcome { ok: false, state, words }
            } else {
                let enc = spec_encoded_return(
                    rv,
                    spec_word_in(base, words, (ps.pointer + 4) as u32),
                    spec_word_in(base, words, (ps.pointer + 8) as u32),
                    spec_word_in(base, words, (ps.pointer + 12) as u32),
                    spec_word_in(base, words, (ps.pointer + 16) as u32),
                );
                let words1 = spec_word_updated(
                    base,
                    spec_word_updated(
                        base,
                        spec_word_updated(
                            base,
                            spec_word_updated(base, words, (ps.pointer + 4) as u32, enc.0),
                            (ps.pointer + 8) as u32,
                            enc.1,
                        ),
                        (ps.pointer + 12) as u32,
                        enc.2,
                    ),
                    (ps.pointer + 16) as u32,
                    enc.3,
                );
                let remaining = (ps.count_remaining - 1) as u32;
                if aborting {
                    SyscallReturnOutcome {
                        ok: true,
                        state: CortexMStoredState { packed_syscall: None, ..state },
                        words: spec_word_updated(
                            base,
                            spec_word_updated(
                                base,
                                words1,
                                state.psp,
                                SYSCALL_RETURN_VARIANT_FAILURE_U32,
                            ),
                            (state.psp + 4) as u32,
                            remaining,
                        ),
                    }
                } else if remaining == 0 {
                    SyscallReturnOutcome {
                        ok: true,
                        state: CortexMStoredState { packed_syscall: None, ..state },
                        words: words1,
                    }
                } else {
                    SyscallReturnOutcome {
                        ok: true,
                        state: CortexMStoredState {
                            packed_syscall: Some(
                                PackedSyscall {
                                    count_remaining: remaining,
                                    pointer: (ps.pointer + PACKED_ENTRY_BYTES) as u32,
                                    error_policy: ps.error_policy,
                                },
                            ),
                            ..state
                        },
                        words: words1,
                    }
                }
            }
        },
        None => {
            if !spec_range_ok(start, brk, state.psp, 16) {
                SyscallReturnOutcome { ok: false, state, words }
            } else {
                let enc = spec_encoded_return(
                    rv,
                    spec_word_in(base, words, state.psp),
                    spec_word_in(base, words, (state.psp + 4) as u32),
                    spec_word_in(base, words, (state.psp + 8) as u32),
                    spec_word_in(base, words, (state.psp + 12) as u32),
                );
                SyscallReturnOutcome {
                    ok: true,
                    state,
                    words: spec_word_updated(
                        base,
                        spec_word_updated(
                            base,
                            spec_word_updated(
                                base,
                                spec_word_updated(base, words, state.psp, enc.0),
                                (state.psp + 4) as u32,
                                enc.1,
                            ),
                            (state.psp + 8) as u32,
                            enc.2,
                        ),
                        (state.psp + 12) as u32,
                        enc.3,
                    ),
                }
            }
        },
    }
}

impl SysCall {
    /// Deliver an encoded syscall return value to the process — into the
    /// current packed-batch entry's argument words when a batch is
    /// active, otherwise into the top-of-stack exception frame — exactly
    /// as [`spec_set_syscall_return_value`] describes. Fails without
    /// touching memory when a destination does not lie inside the
    /// accessible window.
    pub fn set_syscall_return_value(
        &self,
        accessible_memory_start: u32,
        app_brk: u32,
        state: &mut CortexMStoredState,
        mem: &mut ProcessMemory,
        return_value: SyscallReturn,
    ) -> (r: Result<(), ()>)
        requires
            old(state).wf(),
            old(mem).spec_holds_window(accessible_memory_start, app_brk),
        ensures
            ({
                let m = spec_set_syscall_return_value(
                    accessible_memory_start,
                    app_brk,
                    *old(state),
                    old(mem).base,
                    old(mem).words@,
                    return_value,
                );
                &&& (r is Ok <==> m.ok)
                &&& *final(state) == m.state
                &&& final(mem).base == old(mem).base
                &&& final(mem).words@ == m.words
            }),
            final(state).wf(),
    {
        let ps_opt = state.packed_syscall;
        match ps_opt {
            Some(ps) => {
                let nbytes: u64 = (ps.count_remaining as u64) * (PACKED_ENTRY_BYTES as u64);
                if !range_ok(accessible_memory_start, app_brk, ps.pointer, nbytes) {
                    return Err(());
                }
                let aborting = !return_value.is_success() && matches!(
                    ps.error_policy,
                    PackedSyscallErrorPolicy::Stop,
                );
                if aborting && !range_ok(accessible_memory_start, app_brk, state.psp, 8) {
                    return Err(());
                }
                proof {
                    assert(nbytes >= PACKED_ENTRY_BYTES) by (nonlinear_arith)
                        requires
                            ps.count_remaining >= 1,
                            nbytes == ps.count_remaining as int * PACKED_ENTRY_BYTES as int,
                    ;
                    crate::memory::lemma_range_words_in_memory(
                        mem,
                        accessible_memory_start,
                        app_brk,
                        ps.pointer,
                        nbytes as int,
                    );
                    lemma_frame_word_addresses(ps.pointer, 5);
                }
                let mut a0 = mem.read_word(ps.pointer + 4);
                let mut a1 = mem.read_word(ps.pointer + 8);
                let mut a2 = mem.read_word(ps.pointer + 12);
                let mut a3 = mem.read_word(ps.pointer + 16);
                return_value.encode_syscall_return(&mut a0, &mut a1, &mut a2, &mut a3);
                mem.write_word(ps.pointer + 4, a0);
                mem.write_word(ps.pointer + 8, a1);
                mem.write_word(ps.pointer + 12, a2);
                mem.write_word(ps.pointer + 16, a3);
                let remaining = ps.count_remaining - 1;
                if aborting {
                    proof {
                        crate::memory::lemma_range_words_in_memory(
                            mem,
                            accessible_memory_start,
                            app_brk,
                            state.psp,
                            8,
                        );
                        lemma_frame_word_addresses(state.psp, 2);
                    }
                    mem.write_word(state.psp, SYSCALL_RETURN_VARIANT_FAILURE_U32);
                    mem.write_word(state.psp + 4, remaining);
                    state.packed_syscall = None;
                } else if remaining == 0 {
                    state.packed_syscall = None;
                } else {
                    proof {
                        assert(nbytes >= 2 * PACKED_ENTRY_BYTES) by (nonlinear_arith)
                            requires
                                ps.count_remaining >= 2,
                                nbytes == ps.count_remaining as int * PACKED_ENTRY_BYTES as int,
                        ;
                    }
                    state.packed_syscall = Some(
                        PackedSyscall {
                            count_remaining: remaining,
                            pointer: ps.pointer + PACKED_ENTRY_BYTES,
                            error_policy: ps.error_policy,
                        },
                    );
                }
                Ok(())
            },
            None => {
                if !range_ok(accessible_memory_start, app_brk, state.psp, 16) {
                    return Err(());
                }
                proof {
                    crate::memory::lemma_range_words_in_memory(
                        mem,
                        accessible_memory_start,
                        app_brk,
                        state.psp,
                        16,
                    );
                    lemma_frame_word_addresses(state.psp, 4);
                }
                let mut a0 = mem.read_word(state.psp);
                let mut a1 = mem.read_word(state.psp + 4);
                let mut a2 = mem.read_word(state.psp + 8);
                let mut a3 = mem.read_word(state.psp + 12);
                return_value.encode_syscall_return(&mut a0, &mut a1, &mut a2, &mut a3);
                mem.write_word(state.psp, a0);
                mem.write_word(state.psp + 4, a1);
                mem.write_word(state.psp + 8, a2);
                mem.write_word(state.psp + 12, a3);
                Ok(())
            },
        }
    }
}

/// Under the stop-on-error policy, a failing entry aborts the rest of
/// the batch and reports to the process: when the entry at position `k`
/// of a batch of `n` — so with `n + 1 - k` entries still to run —
/// returns a failure, the delivery succeeds, the entry-point frame at
/// the stack pointer ends with the distinguished failure identifier and
/// the count of entries not executed, `n - k`, and the batch is
/// discarded, so no later entry is ever read.
pub proof fn lemma_stop_on_error_aborts_batch(
    start: u32,
    brk: u32,
    state: CortexMStoredState,
    base: u32,
    words: Seq<u32>,
    rv: SyscallReturn,
    n: int,
    k: int,
)
    requires
        state.wf(),
        spec_window_in(base, words, start, brk),
        1 <= k <= n,
        (state.packed_syscall matches Some(ps) && ps.error_policy == PackedSyscallErrorPolicy::Stop
            && ps.count_remaining == n + 1 - k && spec_range_ok(
            start,
            brk,
            ps.pointer,
            ps.count_remaining as int * PACKED_ENTRY_BYTES as int,
        )),
        !spec_is_success(rv),
        spec_range_ok(start, brk, state.psp, 8),
    ensures
        ({
            let m = spec_set_syscall_return_value(start, brk, state, base, words, rv);
            &&& m.ok
            &&& m.state.packed_syscall is None
            &&& spec_word_in(base, m.words, state.psp) == SYSCALL_RETURN_VARIANT_FAILURE_U32
            &&& spec_word_in(base, m.words, (state.psp + 4) as u32) == n - k
        }),
{
    let psp = state.psp;
    crate::memory::lemma_word_in_index(base, words, psp);
    crate::memory::lemma_word_in_index(base, words, (psp + 4) as u32);
    crate::memory::lemma_word_index_distinct(base, psp, (psp + 4) as u32);
}

/// Under the continue-on-error policy a failure does not shorten the
/// batch: a failing entry advances the cursor and the remaining count
/// exactly as a success does, so every entry of the batch is attempted
/// regardless of individual failures.
pub proof fn lemma_continue_on_error_drains_all(
    start: u32,
    brk: u32,
    state: CortexMStoredState,
    base: u32,
    words: Seq<u32>,
    rv_failure: SyscallReturn,
    rv_success: SyscallReturn,
)
    requires
        state.wf(),
        (state.packed_syscall matches Some(ps) && ps.error_policy
            == PackedSyscallErrorPolicy::Continue),
        !spec_is_success(rv_failure),
        spec_is_success(rv_success),
    ensures
        spec_set_syscall_return_value(start, brk, state, base, words, rv_failure).state
            == spec_set_syscall_return_value(start, brk, state, base, words, rv_success).state,
        spec_set_syscall_return_value(start, brk, state, base, words, rv_failure).ok
            == spec_set_syscall_return_value(start, brk, state, base, words, rv_success).ok,
{
}

/// What a scheduling turn needs next: either a pending packed batch
/// resolved the turn inside the kernel, or a real CPU-level transition is
/// required.
#[derive(Clone, Copy, Debug, PartialEq, Eq, Structural)]
pub enum SwitchOutcome {
    /// A pending packed-syscall batch supplied the outcome: the whole
    /// turn ran without leaving kernel mode.
    Resolved {
        /// Why control is back with the kernel.
        reason: ContextSwitchReason,
        /// The process's current stack pointer.
        stack_pointer: u32,
    },
    /// No batch is pending: the caller must perform the hardware
    /// transition — restore the saved registers and the stack pointer,
    /// run the process until it traps back — and then hand the outcome
    /// to [`SysCall::classify_switch_return`].
    SwitchRequired {
        /// The stack pointer to restore into hardware.
        stack_pointer: u32,
    },
}

/// The outcome of the blocking hardware transition, as the platform's
/// trap plumbing reports it: the stack pointer the process left behind,
/// whether the hard-fault handler ran while the process ran, whether the
/// syscall handler ran, and — when it did — the immediate operand of the
/// trap instruction, which the plumbing reads from the single instruction
/// preceding the saved program counter.
#[derive(Clone, Copy, Debug, PartialEq, Eq, Structural)]
pub struct HardwareSwitchResult {
    /// The process's stack pointer when control returned to the kernel.
    pub new_stack_pointer: u32,
    /// Whether a hardware fault occurred while the process ran.
    pub app_fault: bool,
    /// Whether the process trapped into the kernel with a syscall.
    pub syscall_fired: bool,
    /// The immediate operand of the trap instruction; meaningful only
    /// when `syscall_fired` is set.
    pub svc_num: u8,
}

/// The result of classifying a hardware switch outcome: the reason handed
/// to the kernel loop, the stored state after classification, and the
/// process-memory words after it.
pub struct ClassifyOutcome {
    /// Why control is back with the kernel.
    pub reason: ContextSwitchReason,
    /// The stored state after classification.
    pub state: CortexMStoredState,
    /// The process-memory words after classification.
    pub words: Seq<u32>,
}

/// What [`SysCall::classify_switch_return`] does, as a function of the
/// stored state, the process-memory words and the reported hardware
/// outcome.
///
/// The priority is strict: a hardware fault, or a returned stack pointer
/// whose frame does not lie inside the accessible window, is a process
/// fault whatever else holds. Otherwise, without a syscall trap the
/// process was preempted by an external event. With one, the resume
/// point and status are persisted from the frame and the call is
/// decoded; the reserved batch-start number with a positive first
/// argument establishes a new batch, optimistically pre-writes a success
/// identifier into the entry-point frame, and immediately classifies the
/// batch's first entry.
pub open spec fn spec_classify_switch_return(
    start: u32,
    brk: u32,
    state: CortexMStoredState,
    base: u32,
    words: Seq<u32>,
    hw: HardwareSwitchResult,
) -> ClassifyOutcome {
    let psp = hw.new_stack_pointer;
    let st1 = CortexMStoredState { psp, ..state };
    let sp_ok = spec_range_ok(start, brk, psp, SVC_FRAME_SIZE as int);
    if hw.app_fault || !sp_ok {
        ClassifyOutcome { reason: ContextSwitchReason::Fault, state: st1, words }
    } else if !hw.syscall_fired {
        ClassifyOutcome { reason: ContextSwitchReason::Interrupted, state: st1, words }
    } else {
        let r0 = spec_word_in(base, words, psp);
        let r1 = spec_word_in(base, words, (psp + 4) as u32);
        let r2 = spec_word_in(base, words, (psp + 8) as u32);
        let r3 = spec_word_in(base, words, (psp + 12) as u32);
        let st2 = CortexMStoredState {
            yield_pc: spec_word_in(base, words, (psp + FRAME_PC_OFFSET) as u32),
            psr: spec_word_in(base, words, (psp + FRAME_PSR_OFFSET) as u32),
            ..st1
        };
        if hw.svc_num == PACKED_SYSCALL_SVC_NUM && r0 > 0 {
            let st3 = CortexMStoredState {
                packed_syscall: Some(
                    PackedSyscall {
                        count_remaining: r0,
                        pointer: r1,
                        error_policy: spec_policy_from_word(r2),
                    },
                ),
                ..st2
            };
            let words1 = spec_word_updated(base, words, psp, SYSCALL_RETURN_VARIANT_SUCCESS);
            let next = spec_next_packed_reason(start, brk, st3, base, words1);
            ClassifyOutcome {
                reason: next->Some_0,
                state: spec_state_after_packed_check(st3, next),
                words: words1,
            }
        } else {
            match spec_syscall_from_registers(hw.svc_num, r0, r1, r2, r3) {
                Some(s) => ClassifyOutcome {
                    reason: ContextSwitchReason::SyscallFired { syscall: s },
                    state: st2,
                    words,
                },
                None => ClassifyOutcome {
                    reason: ContextSwitchReason::Fault,
                    state: st2,
                    words,
                },
            }
        }
    }
}

impl SysCall {
    /// Begin a scheduling turn for the process. When a packed-syscall
    /// batch is pending, the turn resolves inside the kernel: the next
    /// entry is classified (see [`SysCall::next_packed_syscall`]) and no
    /// CPU-level transition happens. Otherwise the caller must perform
    /// the transition and report its outcome to
    /// [`SysCall::classify_switch_return`].
    pub fn switch_to_process(
        &self,
        accessible_memory_start: u32,
        app_brk: u32,
        state: &mut CortexMStoredState,
        mem: &ProcessMemory,
    ) -> (r: SwitchOutcome)
        requires
            old(state).wf(),
            mem.spec_holds_window(accessible_memory_start, app_brk),
        ensures
            ({
                let next = spec_next_packed_reason(
                    accessible_memory_start,
                    app_brk,
                    *old(state),
                    mem.base,
                    mem.words@,
                );
                &&& (match next {
                    Some(reason) => r == (SwitchOutcome::Resolved {
                        reason,
                        stack_pointer: old(state).psp,
                    }),
                    None => r == (SwitchOutcome::SwitchRequired { stack_pointer: old(state).psp }),
                })
                &&& *final(state) == spec_state_after_packed_check(*old(state), next)
            }),
            final(state).wf(),
    {
        match self.next_packed_syscall(accessible_memory_start, app_brk, state, mem) {
            Some(reason) => SwitchOutcome::Resolved { reason, stack_pointer: state.psp },
            None => SwitchOutcome::SwitchRequired { stack_pointer: state.psp },
        }
    }

    /// Classify why a hardware transition returned control to the
    /// kernel, exactly as [`spec_classify_switch_return`] describes, and
    /// return the reason together with the process's new stack pointer.
    /// The resume point and status register are persisted from the frame
    /// only on the syscall path: no suspend is being recorded on the
    /// others.
    pub fn classify_switch_return(
        &self,
        accessible_memory_start: u32,
        app_brk: u32,
        state: &mut CortexMStoredState,
        mem: &mut ProcessMemory,
        hw: HardwareSwitchResult,
    ) -> (r: (ContextSwitchReason, u32))
        requires
            old(state).wf(),
            old(mem).spec_holds_window(accessible_memory_start, app_brk),
        ensures
            ({
                let m = spec_classify_switch_return(
                    accessible_memory_start,
                    app_brk,
                    *old(state),
                    old(mem).base,
                    old(mem).words@,
                    hw,
                );
                &&& r.0 == m.reason
                &&& r.1 == hw.new_stack_pointer
                &&& *final(state) == m.state
                &&& final(mem).base == old(mem).base
                &&& final(mem).words@ == m.words
            }),
            final(state).wf(),
    {
        state.psp = hw.new_stack_pointer;
        let sp_ok = range_ok(accessible_memory_start, app_brk, state.psp, SVC_FRAME_SIZE as u64);
        if hw.app_fault || !sp_ok {
            return (ContextSwitchReason::Fault, state.psp);
        }
        if !hw.syscall_fired {
            return (ContextSwitchReason::Interrupted, state.psp);
        }
        proof {
            crate::memory::lemma_range_words_in_memory(
                mem,
                accessible_memory_start,
                app_brk,
                state.psp,
                SVC_FRAME_SIZE as int,
            );
            lemma_frame_word_addresses(state.psp, 8);
        }
        state.yield_pc = mem.read_word(state.psp + FRAME_PC_OFFSET);
        state.psr = mem.read_word(state.psp + FRAME_PSR_OFFSET);
        let r0 = mem.read_word(state.psp);
        let r1 = mem.read_word(state.psp + 4);
        let r2 = mem.read_word(state.psp + 8);
        let r3 = mem.read_word(state.psp + 12);
        if hw.svc_num == PACKED_SYSCALL_SVC_NUM && r0 > 0 {
            state.packed_syscall = Some(
                PackedSyscall {
                    count_remaining: r0,
                    pointer: r1,
                    error_policy: PackedSyscallErrorPolicy::from(r2),
                },
            );
            mem.write_word(state.psp, SYSCALL_RETURN_VARIANT_SUCCESS);
            let reason = match self.next_packed_syscall(
                accessible_memory_start,
                app_brk,
                state,
                mem,
            ) {
                Some(reason) => reason,
                None => ContextSwitchReason::Fault,
            };
            (reason, state.psp)
        } else {
            match Syscall::from_register_arguments(hw.svc_num, r0, r1, r2, r3) {
                Some(s) => (ContextSwitchReason::SyscallFired { syscall: s }, state.psp),
                None => (ContextSwitchReason::Fault, state.psp),
            }
        }
    }
}

/// The strict classification priority of a hardware switch outcome: a
/// hardware fault is a process fault even when everything else looks
/// sound, and so is an out-of-window stack pointer; a syscall trap whose
/// registers decode to a recognized call fires that call; and with
/// neither a fault nor a syscall trap the process was merely preempted
/// by an external event.
pub proof fn lemma_switch_classification(
    start: u32,
    brk: u32,
    state: CortexMStoredState,
    base: u32,
    words: Seq<u32>,
    hw: HardwareSwitchResult,
)
    ensures
        hw.app_fault ==> spec_classify_switch_return(start, brk, state, base, words, hw).reason
            == ContextSwitchReason::Fault,
        !spec_range_ok(start, brk, hw.new_stack_pointer, SVC_FRAME_SIZE as int)
            ==> spec_classify_switch_return(start, brk, state, base, words, hw).reason
            == ContextSwitchReason::Fault,
        (!hw.app_fault && !hw.syscall_fired && spec_range_ok(
            start,
            brk,
            hw.new_stack_pointer,
            SVC_FRAME_SIZE as int,
        )) ==> spec_classify_switch_return(start, brk, state, base, words, hw).reason
            == ContextSwitchReason::Interrupted,
        (!hw.app_fault && hw.syscall_fired && spec_range_ok(
            start,
            brk,
            hw.new_stack_pointer,
            SVC_FRAME_SIZE as int,
        ) && spec_syscall_from_registers(
            hw.svc_num,
            spec_word_in(base, words, hw.new_stack_pointer),
            spec_word_in(base, words, (hw.new_stack_pointer + 4) as u32),
            spec_word_in(base, words, (hw.new_stack_pointer + 8) as u32),
            spec_word_in(base, words, (hw.new_stack_pointer + 12) as u32),
        ) is Some) ==> spec_classify_switch_return(start, brk, state, base, words, hw).reason == (
        ContextSwitchReason::SyscallFired {
            syscall: spec_syscall_from_registers(
                hw.svc_num,
                spec_word_in(base, words, hw.new_stack_pointer),
                spec_word_in(base, words, (hw.new_stack_pointer + 4) as u32),
                spec_word_in(base, words, (hw.new_stack_pointer + 8) as u32),
                spec_word_in(base, words, (hw.new_stack_pointer + 12) as u32),
            )->Some_0,
        }),
{
}

/// The value every frame field of a diagnostic snapshot gets when the
/// stored stack pointer cannot be trusted: a pattern chosen to make
/// corruption visually obvious in a fault report.
pub const BAD_FRAME_SENTINEL: u32 = 0xBAD0_0BAD;

/// Everything a diagnostic fault report renders: the exception-frame
/// words (or a sentinel pattern in each when the stack pointer cannot be
/// trusted), the saved registers — accurate regardless of stack-pointer
/// validity — and the decoded status and extended-state bits.
#[derive(Clone, Copy, Debug, PartialEq, Eq)]
pub struct ContextSnapshot {
    /// Frame word `r0`.
    pub r0: u32,
    /// Frame word `r1`.
    pub r1: u32,
    /// Frame word `r2`.
    pub r2: u32,
    /// Frame word `r3`.
    pub r3: u32,
    /// Frame word `r12`.
    pub r12: u32,
    /// Frame word `lr`.
    pub lr: u32,
    /// Frame word `pc`.
    pub pc: u32,
    /// Frame status word.
    pub xpsr: u32,
    /// The stored stack pointer.
    pub stack_pointer: u32,
    /// The eight saved general-purpose registers.
    pub regs: [u32; 8],
    /// The stored resume program counter.
    pub yield_pc: u32,
    /// Negative-flag bit of the status word.
    pub apsr_n: u32,
    /// Zero-flag bit of the status word.
    pub apsr_z: u32,
    /// Carry-flag bit of the status word.
    pub apsr_c: u32,
    /// Overflow-flag bit of the status word.
    pub apsr_v: u32,
    /// Saturation-flag bit of the status word.
    pub apsr_q: u32,
    /// Highest general-purpose condition bit of the status word.
    pub apsr_ge3: u32,
    /// Third general-purpose condition bit of the status word.
    pub apsr_ge2: u32,
    /// Second general-purpose condition bit of the status word.
    pub apsr_ge1: u32,
    /// Lowest general-purpose condition bit of the status word.
    pub apsr_ge0: u32,
    /// The instruction-continuation bits of the status word.
    pub ici_it: u32,
    /// The instruction-set-mode bit of the status word. When clear, the
    /// status word names a mode this architecture variant cannot
    /// execute, and the report flags an explicit error.
    pub thumb_bit: bool,
}

impl SysCall {
    /// Gather everything a diagnostic fault report needs. The live
    /// exception frame is read only when the stored stack pointer lies
    /// inside the accessible window; otherwise every frame field gets
    /// [`BAD_FRAME_SENTINEL`] so corruption is visually obvious. The
    /// saved registers and the resume point come from the stored state,
    /// which is accurate regardless of stack-pointer validity, and the
    /// status bits are decoded from whichever status word the snapshot
    /// carries.
    pub fn context_snapshot(
        &self,
        accessible_memory_start: u32,
        app_brk: u32,
        state: &CortexMStoredState,
        mem: &ProcessMemory,
    ) -> (snap: ContextSnapshot)
        requires
            mem.spec_holds_window(accessible_memory_start, app_brk),
        ensures
            snap.stack_pointer == state.psp,
            snap.regs == state.regs,
            snap.yield_pc == state.yield_pc,
            spec_range_ok(accessible_memory_start, app_brk, state.psp, SVC_FRAME_SIZE as int)
                ==> {
                &&& snap.r0 == mem.spec_word_at(state.psp)
                &&& snap.r1 == mem.spec_word_at((state.psp + 4) as u32)
                &&& snap.r2 == mem.spec_word_at((state.psp + 8) as u32)
                &&& snap.r3 == mem.spec_word_at((state.psp + 12) as u32)
                &&& snap.r12 == mem.spec_word_at((state.psp + 16) as u32)
                &&& snap.lr == mem.spec_word_at((state.psp + FRAME_LR_OFFSET) as u32)
                &&& snap.pc == mem.spec_word_at((state.psp + FRAME_PC_OFFSET) as u32)
                &&& snap.xpsr == mem.spec_word_at((state.psp + FRAME_PSR_OFFSET) as u32)
            },
            !spec_range_ok(accessible_memory_start, app_brk, state.psp, SVC_FRAME_SIZE as int)
                ==> {
                &&& snap.r0 == BAD_FRAME_SENTINEL
                &&& snap.r1 == BAD_FRAME_SENTINEL
                &&& snap.r2 == BAD_FRAME_SENTINEL
                &&& snap.r3 == BAD_FRAME_SENTINEL
                &&& snap.r12 == BAD_FRAME_SENTINEL
                &&& snap.lr == BAD_FRAME_SENTINEL
                &&& snap.pc == BAD_FRAME_SENTINEL
                &&& snap.xpsr == BAD_FRAME_SENTINEL
            },
            snap.apsr_n == (snap.xpsr >> 31u32) & 1,
            snap.apsr_z == (snap.xpsr >> 30u32) & 1,
            snap.apsr_c == (snap.xpsr >> 29u32) & 1,
            snap.apsr_v == (snap.xpsr >> 28u32) & 1,
            snap.apsr_q == (snap.xpsr >> 27u32) & 1,
            snap.apsr_ge3 == (snap.xpsr >> 19u32) & 1,
            snap.apsr_ge2 == (snap.xpsr >> 18u32) & 1,
            snap.apsr_ge1 == (snap.xpsr >> 17u32) & 1,
            snap.apsr_ge0 == (snap.xpsr >> 16u32) & 1,
            snap.ici_it == ((snap.xpsr >> 25u32) & 0x3) << 6u32 | (snap.xpsr >> 10u32) & 0x3f,
            snap.thumb_bit == (((snap.xpsr >> 24u32) & 1) == 1),
    {
        let valid = range_ok(
            accessible_memory_start,
            app_brk,
            state.psp,
            SVC_FRAME_SIZE as u64,
        );
        let (r0, r1, r2, r3, r12, lr, pc, xpsr) = if !valid {
            (
                BAD_FRAME_SENTINEL,
                BAD_FRAME_SENTINEL,
                BAD_FRAME_SENTINEL,
                BAD_FRAME_SENTINEL,
                BAD_FRAME_SENTINEL,
                BAD_FRAME_SENTINEL,
                BAD_FRAME_SENTINEL,
                BAD_FRAME_SENTINEL,
            )
        } else {
            proof {
                crate::memory::lemma_range_words_in_memory(
                    mem,
                    accessible_memory_start,
                    app_brk,
                    state.psp,
                    SVC_FRAME_SIZE as int,
                );
                lemma_frame_word_addresses(state.psp, 8);
            }
            (
                mem.read_word(state.psp),
                mem.read_word(state.psp + 4),
                mem.read_word(state.psp + 8),
                mem.read_word(state.psp + 12),
                mem.read_word(state.psp + 16),
                mem.read_word(state.psp + FRAME_LR_OFFSET),
                mem.read_word(state.psp + FRAME_PC_OFFSET),
                mem.read_word(state.psp + FRAME_PSR_OFFSET),
            )
        };
        ContextSnapshot {
            r0,
            r1,
            r2,
            r3,
            r12,
            lr,
            pc,
            xpsr,
            stack_pointer: state.psp,
            regs: state.regs,
            yield_pc: state.yield_pc,
            apsr_n: (xpsr >> 31u32) & 1,
            apsr_z: (xpsr >> 30u32) & 1,
            apsr_c: (xpsr >> 29u32) & 1,
            apsr_v: (xpsr >> 28u32) & 1,
            apsr_q: (xpsr >> 27u32) & 1,
            apsr_ge3: (xpsr >> 19u32) & 1,
            apsr_ge2: (xpsr >> 18u32) & 1,
            apsr_ge1: (xpsr >> 17u32) & 1,
            apsr_ge0: (xpsr >> 16u32) & 1,
            ici_it: ((xpsr >> 25u32) & 0x3) << 6u32 | (xpsr >> 10u32) & 0x3f,
            thumb_bit: ((xpsr >> 24u32) & 1) == 1,
        }
    }
}

/// Write one word of a snapshot and carry the byte-exactness invariant of
/// [`SysCall::store_context`] forward over it.
fn write_state_word(state: &CortexMStoredState, out: &mut Vec<u8>, index: usize, val: u32)
    requires
        index < crate::state::STATE_WORDS,
        old(out)@.len() >= STATE_BUFFER_BYTES,
        val == spec_state_words(*state)[index as int],
        forall|j: int| 0 <= j < 4 * index ==> old(out)@[j] == spec_encoded_state(*state)[j],
    ensures
        final(out)@.len() == old(out)@.len(),
        forall|j: int| 0 <= j < 4 * (index + 1) ==> final(out)@[j] == spec_encoded_state(*state)[j],
        forall|j: int| 4 * (index + 1) <= j < old(out)@.len() ==> final(out)@[j] == old(out)@[j],
{
    write_usize_to_u8_slice(val, out, index);
    proof {
        let enc = spec_encoded_state(*state);
        let sub = final(out)@.subrange(4 * index, 4 * index + 4);
        assert forall|j: int| 4 * index <= j < 4 * (index + 1) implies final(out)@[j] == enc[j] by {
            crate::state::lemma_encoded_byte(*state, index as int, j - 4 * index);
            assert(final(out)@[j] == sub[j - 4 * index]);
        }
    }
}

} // verus!
