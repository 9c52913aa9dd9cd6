//! System calls: the decoded call value a process hands to the kernel and
//! the encoded return value the kernel hands back.

use crate::errorcode::{spec_error_code_word, ErrorCode};
use vstd::prelude::*;

verus! {

/// Call-class number of a yield call.
pub const SYSCALL_CLASS_YIELD: u8 = 0;

/// Call-class number of a subscribe call.
pub const SYSCALL_CLASS_SUBSCRIBE: u8 = 1;

/// Call-class number of a command call.
pub const SYSCALL_CLASS_COMMAND: u8 = 2;

/// Call-class number of a read-write allow call.
pub const SYSCALL_CLASS_READ_WRITE_ALLOW: u8 = 3;

/// Call-class number of a read-only allow call.
pub const SYSCALL_CLASS_READ_ONLY_ALLOW: u8 = 4;

/// Call-class number of a memory-break-adjustment call.
pub const SYSCALL_CLASS_MEMOP: u8 = 5;

/// Call-class number of an exit call.
pub const SYSCALL_CLASS_EXIT: u8 = 6;

/// A system call a process made, with its decoded argument values.
#[derive(Clone, Copy, Debug, PartialEq, Eq, Structural)]
pub enum Syscall {
    /// Structure representing an invocation of the Yield system call class.
    Yield {
        /// Which yield style was requested.
        which: u32,
        /// Address the yield result is written to.
        address: u32,
    },
    /// Structure representing an invocation of the Subscribe system call class.
    Subscribe {
        /// The driver the upcall is subscribed to.
        driver_number: u32,
        /// The upcall slot within the driver.
        subdriver_number: u32,
        /// Address of the upcall function.
        upcall_ptr: u32,
        /// Value passed back with the upcall.
        appdata: u32,
    },
    /// Structure representing an invocation of the Command system call class.
    Command {
        /// The driver the command is addressed to.
        driver_number: u32,
        /// The command within the driver.
        subdriver_number: u32,
        /// First command argument.
        arg0: u32,
        /// Second command argument.
        arg1: u32,
    },
    /// Structure representing an invocation of the ReadWriteAllow system call class.
    ReadWriteAllow {
        /// The driver the buffer is shared with.
        driver_number: u32,
        /// The buffer slot within the driver.
        subdriver_number: u32,
        /// Address of the shared buffer.
        allow_address: u32,
        /// Length of the shared buffer in bytes.
        allow_size: u32,
    },
    /// Structure representing an invocation of the ReadOnlyAllow system call class.
    ReadOnlyAllow {
        /// The driver the buffer is shared with.
        driver_number: u32,
        /// The buffer slot within the driver.
        subdriver_number: u32,
        /// Address of the shared buffer.
        allow_address: u32,
        /// Length of the shared buffer in bytes.
        allow_size: u32,
    },
    /// Structure representing an invocation of the Memop system call class.
    Memop {
        /// The memory operation requested.
        operand: u32,
        /// Argument of the operation.
        arg0: u32,
    },
    /// Structure representing an invocation of the Exit system call class.
    Exit {
        /// Which exit style was requested.
        which: u32,
        /// Completion code reported to the kernel.
        completion_code: u32,
    },
}

/// The call value that a register tuple decodes to, or `None` when the
/// call-class number is not recognized.
pub open spec fn spec_syscall_from_registers(
    syscall_number: u8,
    r0: u32,
    r1: u32,
    r2: u32,
    r3: u32,
) -> Option<Syscall> {
    if syscall_number == SYSCALL_CLASS_YIELD {
        Some(Syscall::Yield { which: r0, address: r1 })
    } else if syscall_number == SYSCALL_CLASS_SUBSCRIBE {
        Some(
            Syscall::Subscribe {
                driver_number: r0,
                subdriver_number: r1,
                upcall_ptr: r2,
                appdata: r3,
            },
        )
    } else if syscall_number == SYSCALL_CLASS_COMMAND {
        Some(Syscall::Command { driver_number: r0, subdriver_number: r1, arg0: r2, arg1: r3 })
    } else if syscall_number == SYSCALL_CLASS_READ_WRITE_ALLOW {
        Some(
            Syscall::ReadWriteAllow {
                driver_number: r0,
                subdriver_number: r1,
                allow_address: r2,
                allow_size: r3,
            },
        )
    } else if syscall_number == SYSCALL_CLASS_READ_ONLY_ALLOW {
        Some(
            Syscall::ReadOnlyAllow {
                driver_number: r0,
                subdriver_number: r1,
                allow_address: r2,
                allow_size: r3,
            },
        )
    } else if syscall_number == SYSCALL_CLASS_MEMOP {
        Some(Syscall::Memop { operand: r0, arg0: r1 })
    } else if syscall_number == SYSCALL_CLASS_EXIT {
        Some(Syscall::Exit { which: r0, completion_code: r1 })
    } else {
        None
    }
}

impl Syscall {
    /// Decode a call from the register values a process passed when it
    /// trapped into the kernel: the call-class number and four raw
    /// argument words.
    pub fn from_register_arguments(syscall_number: u8, r0: u32, r1: u32, r2: u32, r3: u32) -> (r:
        Option<Syscall>)
        ensures
            r == spec_syscall_from_registers(syscall_number, r0, r1, r2, r3),
    {
        if syscall_number == SYSCALL_CLASS_YIELD {
            Some(Syscall::Yield { which: r0, address: r1 })
        } else if syscall_number == SYSCALL_CLASS_SUBSCRIBE {
            Some(
                Syscall::Subscribe {
                    driver_number: r0,
                    subdriver_number: r1,
                    upcall_ptr: r2,
                    appdata: r3,
                },
            )
        } else if syscall_number == SYSCALL_CLASS_COMMAND {
            Some(Syscall::Command { driver_number: r0, subdriver_number: r1, arg0: r2, arg1: r3 })
        } else if syscall_number == SYSCALL_CLASS_READ_WRITE_ALLOW {
            Some(
                Syscall::ReadWriteAllow {
                    driver_number: r0,
                    subdriver_number: r1,
                    allow_address: r2,
                    allow_size: r3,
                },
            )
        } else if syscall_number == SYSCALL_CLASS_READ_ONLY_ALLOW {
            Some(
                Syscall::ReadOnlyAllow {
                    driver_number: r0,
                    subdriver_number: r1,
                    allow_address: r2,
                    allow_size: r3,
                },
            )
        } else if syscall_number == SYSCALL_CLASS_MEMOP {
            Some(Syscall::Memop { operand: r0, arg0: r1 })
        } else if syscall_number == SYSCALL_CLASS_EXIT {
            Some(Syscall::Exit { which: r0, completion_code: r1 })
        } else {
            None
        }
    }
}

/// Why control returned to the kernel after it gave the CPU to a process.
#[derive(Clone, Copy, Debug, PartialEq, Eq, Structural)]
pub enum ContextSwitchReason {
    /// A process called a syscall. Contains the syscall it called.
    SyscallFired {
        /// The decoded call.
        syscall: Syscall,
    },
    /// A process faulted, or the boundary could not trust the state the
    /// process left behind.
    Fault,
    /// A process was interrupted by an external hardware event before it
    /// reached a trap of its own.
    Interrupted,
}

/// Identifier word of a failure return without payload.
pub const SYSCALL_RETURN_VARIANT_FAILURE: u32 = 0;

/// Identifier word of a failure return carrying one word of payload.
pub const SYSCALL_RETURN_VARIANT_FAILURE_U32: u32 = 1;

/// Identifier word of a failure return carrying two words of payload.
pub const SYSCALL_RETURN_VARIANT_FAILURE_U32_U32: u32 = 2;

/// Identifier word of a failure return carrying a double word of payload.
pub const SYSCALL_RETURN_VARIANT_FAILURE_U64: u32 = 3;

/// Identifier word of a success return without payload.
pub const SYSCALL_RETURN_VARIANT_SUCCESS: u32 = 128;

/// Identifier word of a success return carrying one word of payload.
pub const SYSCALL_RETURN_VARIANT_SUCCESS_U32: u32 = 129;

/// Identifier word of a success return carrying two words of payload.
pub const SYSCALL_RETURN_VARIANT_SUCCESS_U32_U32: u32 = 130;

/// Identifier word of a success return carrying a double word of payload.
pub const SYSCALL_RETURN_VARIANT_SUCCESS_U64: u32 = 131;

/// Identifier word of a success return carrying three words of payload.
pub const SYSCALL_RETURN_VARIANT_SUCCESS_U32_U32_U32: u32 = 132;

/// Identifier word of a success return carrying a double word and a word.
pub const SYSCALL_RETURN_VARIANT_SUCCESS_U64_U32: u32 = 133;

/// The return value of a system call, as the kernel's call-dispatch layer
/// produces it. The boundary writes its encoding verbatim into process
/// memory.
#[derive(Clone, Copy, Debug, PartialEq, Eq, Structural)]
pub enum SyscallReturn {
    /// A failure with no payload.
    Failure(ErrorCode),
    /// A failure carrying one word of payload.
    FailureU32(ErrorCode, u32),
    /// A failure carrying two words of payload.
    FailureU32U32(ErrorCode, u32, u32),
    /// A failure carrying a double word of payload.
    FailureU64(ErrorCode, u64),
    /// A success with no payload.
    Success,
    /// A success carrying one word of payload.
    SuccessU32(u32),
    /// A success carrying two words of payload.
    SuccessU32U32(u32, u32),
    /// A success carrying three words of payload.
    SuccessU32U32U32(u32, u32, u32),
    /// A success carrying a double word of payload.
    SuccessU64(u64),
    /// A success carrying a double word and a word of payload.
    SuccessU64U32(u64, u32),
}

/// Whether a return value reports success.
pub open spec fn spec_is_success(rv: SyscallReturn) -> bool {
    match rv {
        SyscallReturn::Success => true,
        SyscallReturn::SuccessU32(..) => true,
        SyscallReturn::SuccessU32U32(..) => true,
        SyscallReturn::SuccessU32U32U32(..) => true,
        SyscallReturn::SuccessU64(..) => true,
        SyscallReturn::SuccessU64U32(..) => true,
        SyscallReturn::Failure(..) => false,
        SyscallReturn::FailureU32(..) => false,
        SyscallReturn::FailureU32U32(..) => false,
        SyscallReturn::FailureU64(..) => false,
    }
}

/// The low word of a double word.
pub open spec fn spec_u64_low(v: u64) -> u32 {
    (v & 0xffff_ffff) as u32
}

/// The high word of a double word.
pub open spec fn spec_u64_high(v: u64) -> u32 {
    (v >> 32) as u32
}

/// The four register words that encode a return value: the variant
/// identifier in the first word, the payload in the rest. Register words
/// the variant's payload does not reach keep the value they had; the
/// argument words are the previous contents of the four registers.
pub open spec fn spec_encoded_return(rv: SyscallReturn, a0: u32, a1: u32, a2: u32, a3: u32) -> (
    u32,
    u32,
    u32,
    u32,
) {
    match rv {
        SyscallReturn::Failure(error) => (
            SYSCALL_RETURN_VARIANT_FAILURE,
            spec_error_code_word(error),
            a2,
            a3,
        ),
        SyscallReturn::FailureU32(error, value) => (
            SYSCALL_RETURN_VARIANT_FAILURE_U32,
            spec_error_code_word(error),
            value,
            a3,
        ),
        SyscallReturn::FailureU32U32(error, value, value2) => (
            SYSCALL_RETURN_VARIANT_FAILURE_U32_U32,
            spec_error_code_word(error),
            value,
            value2,
        ),
        SyscallReturn::FailureU64(error, value) => (
            SYSCALL_RETURN_VARIANT_FAILURE_U64,
            spec_error_code_word(error),
            spec_u64_low(value),
            spec_u64_high(value),
        ),
        SyscallReturn::Success => (SYSCALL_RETURN_VARIANT_SUCCESS, a1, a2, a3),
        SyscallReturn::SuccessU32(value) => (SYSCALL_RETURN_VARIANT_SUCCESS_U32, value, a2, a3),
        SyscallReturn::SuccessU32U32(value, value2) => (
            SYSCALL_RETURN_VARIANT_SUCCESS_U32_U32,
            value,
            value2,
            a3,
        ),
        SyscallReturn::SuccessU32U32U32(value, value2, value3) => (
            SYSCALL_RETURN_VARIANT_SUCCESS_U32_U32_U32,
            value,
            value2,
            value3,
        ),
        SyscallReturn::SuccessU64(value) => (
            SYSCALL_RETURN_VARIANT_SUCCESS_U64,
            spec_u64_low(value),
            spec_u64_high(value),
            a3,
        ),
        SyscallReturn::SuccessU64U32(value, value2) => (
            SYSCALL_RETURN_VARIANT_SUCCESS_U64_U32,
            spec_u64_low(value),
            spec_u64_high(value),
            value2,
        ),
    }
}

impl SyscallReturn {
    /// Whether this return value reports success.
    pub fn is_success(&self) -> (r: bool)
        ensures
            r == spec_is_success(*self),
    {
        match self {
            SyscallReturn::Success => true,
            SyscallReturn::SuccessU32(..) => true,
            SyscallReturn::SuccessU32U32(..) => true,
            SyscallReturn::SuccessU32U32U32(..) => true,
            SyscallReturn::SuccessU64(..) => true,
            SyscallReturn::SuccessU64U32(..) => true,
            SyscallReturn::Failure(..) => false,
            SyscallReturn::FailureU32(..) => false,
            SyscallReturn::FailureU32U32(..) => false,
            SyscallReturn::FailureU64(..) => false,
        }
    }

    /// Encode this return value into the four registers of a trapped
    /// process, in the architecture's defined encoding: the variant
    /// identifier in `r0`, the payload behind it.
    pub fn encode_syscall_return(&self, r0: &mut u32, r1: &mut u32, r2: &mut u32, r3: &mut u32)
        ensures
            (*final(r0), *final(r1), *final(r2), *final(r3)) == spec_encoded_return(
                *self,
                *old(r0),
                *old(r1),
                *old(r2),
                *old(r3),
            ),
    {
        match self {
            SyscallReturn::Failure(error) => {
                *r0 = SYSCALL_RETURN_VARIANT_FAILURE;
                *r1 = error.as_word();
            },
            SyscallReturn::FailureU32(error, value) => {
                *r0 = SYSCALL_RETURN_VARIANT_FAILURE_U32;
                *r1 = error.as_word();
                *r2 = *value;
            },
            SyscallReturn::FailureU32U32(error, value, value2) => {
                *r0 = SYSCALL_RETURN_VARIANT_FAILURE_U32_U32;
                *r1 = error.as_word();
                *r2 = *value;
                *r3 = *value2;
            },
            SyscallReturn::FailureU64(error, value) => {
                *r0 = SYSCALL_RETURN_VARIANT_FAILURE_U64;
                *r1 = error.as_word();
                *r2 = u64_low(*value);
                *r3 = u64_high(*value);
            },
            SyscallReturn::Success => {
                *r0 = SYSCALL_RETURN_VARIANT_SUCCESS;
            },
            SyscallReturn::SuccessU32(value) => {
                *r0 = SYSCALL_RETURN_VARIANT_SUCCESS_U32;
                *r1 = *value;
            },
            SyscallReturn::SuccessU32U32(value, value2) => {
                *r0 = SYSCALL_RETURN_VARIANT_SUCCESS_U32_U32;
                *r1 = *value;
                *r2 = *value2;
            },
            SyscallReturn::SuccessU32U32U32(value, value2, value3) => {
                *r0 = SYSCALL_RETURN_VARIANT_SUCCESS_U32_U32_U32;
                *r1 = *value;
                *r2 = *value2;
                *r3 = *value3;
            },
            SyscallReturn::SuccessU64(value) => {
                *r0 = SYSCALL_RETURN_VARIANT_SUCCESS_U64;
                *r1 = u64_low(*value);
                *r2 = u64_high(*value);
            },
            SyscallReturn::SuccessU64U32(value, value2) => {
                *r0 = SYSCALL_RETURN_VARIANT_SUCCESS_U64_U32;
                *r1 = u64_low(*value);
                *r2 = u64_high(*value);
                *r3 = *value2;
            },
        }
    }
}

/// The low word of a double word.
pub fn u64_low(v: u64) -> (r: u32)
    ensures
        r == spec_u64_low(v),
{
    (v & 0xffff_ffff) as u32
}

/// The high word of a double word.
pub fn u64_high(v: u64) -> (r: u32)
    ensures
        r == spec_u64_high(v),
{
    (v >> 32) as u32
}

} // verus!
