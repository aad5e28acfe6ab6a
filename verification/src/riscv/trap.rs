//! Trap dispatch: what a trap asks of the kernel, and what it does to the
//! saved frame.
//!
//! The dispatcher makes the decisions and leaves the work that needs the
//! hardware or the rest of the kernel to its caller. The trap entry reads the
//! `scause` and `stval` registers and hands their values to
//! [`riscv_trap_handler`], which returns a [`TrapRequest`]. The caller runs the
//! handler that the request names and reports back through
//! [`complete_syscall`] or [`complete_page_fault`].

use vstd::prelude::*;

use ::riscv::interrupt::supervisor::{Exception, Interrupt};
use ::riscv::interrupt::Trap;
use ::riscv::register::scause::Scause;
use ::riscv::register::sstatus::Sstatus;

use super::context::{GeneralRegisters, TrapFrame};
use crate::trap::PageFaultFlags;

verus! {

/// Length in bytes of the `ecall` instruction, which a system call returns past.
pub const SYSCALL_WIDTH: usize = 4;

/// Length in bytes of the compressed `ebreak` instruction, which a breakpoint
/// resumes past.
pub const BREAKPOINT_WIDTH: usize = 2;

/// Exception code of a breakpoint.
pub const BREAKPOINT: usize = 3;

/// Exception code of an environment call from user mode.
pub const USER_ENV_CALL: usize = 8;

/// Exception code of a page fault on an instruction fetch.
pub const INSTRUCTION_PAGE_FAULT: usize = 12;

/// Exception code of a page fault on a load.
pub const LOAD_PAGE_FAULT: usize = 13;

/// Exception code of a page fault on a store.
pub const STORE_PAGE_FAULT: usize = 15;

/// The `FS` field of `sstatus`: bits 13 and 14.
pub const FS_MASK: usize = 0x6000;

/// The cause of a trap as `scause` encodes it: the kind, and the code within
/// that kind.
#[derive(Clone, Copy, Debug, PartialEq, Eq, Structural)]
pub enum RawCause {
    /// An interrupt, with its code.
    Interrupt(usize),
    /// An exception, with its code.
    Exception(usize),
}

/// How the dispatcher routes a trap.
#[derive(Clone, Copy, Debug, PartialEq, Eq, Structural)]
pub enum TrapKind {
    /// A system call from user mode.
    Syscall,
    /// A page fault; the flags hold the kind of the faulting access alone.
    PageFault(PageFaultFlags),
    /// A breakpoint instruction.
    Breakpoint,
    /// One of the standard supervisor interrupts.
    Interrupt,
    /// A standard exception that no handler takes.
    Unhandled,
    /// A cause outside the standard ones.
    Unknown,
}

/// Why a trap cannot be resumed, with what the diagnostic has to show.
#[derive(Clone, Copy, Debug, PartialEq, Eq)]
pub enum FatalTrap {
    /// The page-fault handler reported that it did not handle the fault.
    UnhandledPageFault {
        /// Whether the fault came from user mode.
        is_user: bool,
        /// The address whose access faulted.
        fault_vaddr: usize,
        /// The faulting access.
        access_flags: PageFaultFlags,
        /// The frame of the trap.
        frame: TrapFrame,
    },
    /// A standard exception that no handler takes.
    UnhandledTrap {
        /// The cause of the trap.
        cause: RawCause,
        /// The frame of the trap.
        frame: TrapFrame,
    },
    /// A cause outside the standard ones.
    UnknownTrap {
        /// The cause of the trap.
        cause: RawCause,
        /// The frame of the trap.
        frame: TrapFrame,
    },
}

/// What the kernel has to do for a trap before it returns from it.
#[derive(Clone, Copy, Debug, PartialEq, Eq)]
pub enum TrapRequest {
    /// Run the system call and report its result with [`complete_syscall`].
    Syscall {
        /// The system call number, from register `a7`.
        number: usize,
    },
    /// Run the page-fault handler and report its answer with
    /// [`complete_page_fault`].
    PageFault {
        /// The address whose access faulted.
        vaddr: usize,
        /// The faulting access, with `USER` for a fault from user mode.
        access_flags: PageFaultFlags,
        /// Whether the fault came from user mode.
        is_user: bool,
    },
    /// Run the interrupt handler.
    Irq {
        /// The value of `scause`, which identifies the interrupt.
        scause: usize,
    },
    /// Nothing to run: return from the trap.
    Resume,
    /// Stop the machine with a diagnostic; the trap must not be resumed.
    Fatal(FatalTrap),
}

/// Whether the most significant bit of `scause` is set: the trap is an
/// interrupt, not an exception.
pub open spec fn is_interrupt(scause: usize) -> bool {
    scause > usize::MAX / 2
}

/// The code of the cause: `scause` without its most significant bit.
pub open spec fn cause_code(scause: usize) -> usize {
    if is_interrupt(scause) {
        (scause - usize::MAX / 2 - 1) as usize
    } else {
        scause
    }
}

/// The cause that a value of `scause` encodes.
pub open spec fn raw_cause(scause: usize) -> RawCause {
    if is_interrupt(scause) {
        RawCause::Interrupt(cause_code(scause))
    } else {
        RawCause::Exception(cause_code(scause))
    }
}

/// Whether a cause is one of the standard supervisor-mode causes: the
/// software, timer and external interrupts, and the exceptions 0 to 9, 12, 13
/// and 15.
pub open spec fn is_standard(cause: RawCause) -> bool {
    match cause {
        RawCause::Interrupt(code) => code == 1 || code == 5 || code == 9,
        RawCause::Exception(code) => code <= 9 || code == 12 || code == 13 || code == 15,
    }
}

/// How a cause is routed.
pub open spec fn cause_kind(cause: RawCause) -> TrapKind {
    if !is_standard(cause) {
        TrapKind::Unknown
    } else {
        match cause {
            RawCause::Interrupt(_) => TrapKind::Interrupt,
            RawCause::Exception(code) => if code == USER_ENV_CALL {
                TrapKind::Syscall
            } else if code == LOAD_PAGE_FAULT {
                TrapKind::PageFault(PageFaultFlags::spec_read())
            } else if code == STORE_PAGE_FAULT {
                TrapKind::PageFault(PageFaultFlags::spec_write())
            } else if code == INSTRUCTION_PAGE_FAULT {
                TrapKind::PageFault(PageFaultFlags::spec_execute())
            } else if code == BREAKPOINT {
                TrapKind::Breakpoint
            } else {
                TrapKind::Unhandled
            },
        }
    }
}

/// How a trap with the given value of `scause` is routed.
pub open spec fn trap_kind(scause: usize) -> TrapKind {
    cause_kind(raw_cause(scause))
}

/// What a page fault asks of the kernel.
pub open spec fn page_fault_request(
    access_flags: PageFaultFlags,
    is_user: bool,
    stval: usize,
) -> TrapRequest {
    TrapRequest::PageFault {
        vaddr: stval,
        access_flags: access_flags.spec_with_user(is_user),
        is_user,
    }
}

/// What a trap asks of the kernel, from the saved frame, the mode it came
/// from, and the values of `scause` and `stval`.
pub open spec fn trap_request(
    tf: TrapFrame,
    from_user: bool,
    scause: usize,
    stval: usize,
) -> TrapRequest {
    match trap_kind(scause) {
        TrapKind::Syscall => TrapRequest::Syscall { number: tf.regs.a7 },
        TrapKind::PageFault(access) => page_fault_request(access, from_user, stval),
        TrapKind::Breakpoint => TrapRequest::Resume,
        TrapKind::Interrupt => TrapRequest::Irq { scause },
        TrapKind::Unhandled => TrapRequest::Fatal(
            FatalTrap::UnhandledTrap { cause: raw_cause(scause), frame: tf },
        ),
        TrapKind::Unknown => TrapRequest::Fatal(
            FatalTrap::UnknownTrap { cause: raw_cause(scause), frame: tf },
        ),
    }
}

/// The frame as the dispatcher leaves it: a breakpoint moves `sepc` past the
/// breakpoint instruction, and every other trap leaves the frame as it was.
pub open spec fn frame_after_trap(tf: TrapFrame, scause: usize) -> TrapFrame {
    if trap_kind(scause) == TrapKind::Breakpoint {
        TrapFrame { sepc: (tf.sepc + BREAKPOINT_WIDTH) as usize, ..tf }
    } else {
        tf
    }
}

/// The frame after a system call that returned `ret`: the result is in `a0`
/// and `sepc` is past the `ecall` instruction.
pub open spec fn frame_after_syscall(tf: TrapFrame, ret: isize) -> TrapFrame {
    TrapFrame {
        regs: GeneralRegisters { a0: ret as usize, ..tf.regs },
        sepc: (tf.sepc + SYSCALL_WIDTH) as usize,
        ..tf
    }
}

/// What becomes of a page fault once its handler has answered: nothing, if
/// the handler took the fault, and else the fatal trap that holds what the
/// handler was given and the frame.
pub open spec fn page_fault_outcome(
    tf: TrapFrame,
    vaddr: usize,
    access_flags: PageFaultFlags,
    is_user: bool,
    handled: bool,
) -> Option<FatalTrap> {
    if handled {
        None
    } else {
        Some(FatalTrap::UnhandledPageFault { is_user, fault_vaddr: vaddr, access_flags, frame: tf })
    }
}

/// A value of `sstatus` with its `FS` field replaced by the one of `hardware`.
pub open spec fn sstatus_with_fs(saved: usize, hardware: usize) -> usize {
    (saved & !FS_MASK) | (hardware & FS_MASK)
}

/// Reads the cause out of a value of `scause` with `Scause::from_bits` and
/// `Scause::cause`: the most significant bit tells an interrupt from an
/// exception, and the other bits are the code.
#[verifier::external_body]
fn decode_cause(scause: usize) -> (cause: RawCause)
    ensures
        cause == raw_cause(scause),
{
    match Scause::from_bits(scause).cause() {
        Trap::Interrupt(code) => RawCause::Interrupt(code),
        Trap::Exception(code) => RawCause::Exception(code),
    }
}

/// Asks `Trap::try_into` whether a cause converts to the supervisor-mode
/// `Interrupt` and `Exception` enums. It does for the interrupts 1, 5 and 9 and
/// for the exceptions 0 to 9, 12, 13 and 15, which are the variants of the two
/// enums.
#[verifier::external_body]
fn converts_to_standard(cause: RawCause) -> (standard: bool)
    ensures
        standard == is_standard(cause),
{
    let raw = match cause {
        RawCause::Interrupt(code) => Trap::Interrupt(code),
        RawCause::Exception(code) => Trap::Exception(code),
    };
    raw.try_into::<Interrupt, Exception>().is_ok()
}

/// Reads the `FS` field of a value of `sstatus` with `Sstatus::from_bits` and
/// `Sstatus::fs`: bits 13 and 14, as a number from 0 (off) to 3 (dirty).
#[verifier::external_body]
fn floating_point_state(sstatus: usize) -> (fs: usize)
    ensures
        fs == (sstatus & FS_MASK) >> 13,
{
    Sstatus::from_bits(sstatus).fs().into_usize()
}

/// Decides how a trap with the given value of `scause` is routed.
pub fn classify(scause: usize) -> (kind: TrapKind)
    ensures
        kind == trap_kind(scause),
{
    let cause = decode_cause(scause);
    if !converts_to_standard(cause) {
        return TrapKind::Unknown;
    }
    match cause {
        RawCause::Interrupt(_) => TrapKind::Interrupt,
        RawCause::Exception(code) => {
            if code == USER_ENV_CALL {
                TrapKind::Syscall
            } else if code == LOAD_PAGE_FAULT {
                TrapKind::PageFault(PageFaultFlags::read())
            } else if code == STORE_PAGE_FAULT {
                TrapKind::PageFault(PageFaultFlags::write())
            } else if code == INSTRUCTION_PAGE_FAULT {
                TrapKind::PageFault(PageFaultFlags::execute())
            } else if code == BREAKPOINT {
                TrapKind::Breakpoint
            } else {
                TrapKind::Unhandled
            }
        },
    }
}

/// Resumes past a breakpoint: moves `sepc` over the breakpoint instruction.
pub fn handle_breakpoint(sepc: &mut usize)
    requires
        *old(sepc) + BREAKPOINT_WIDTH <= usize::MAX,
    ensures
        *final(sepc) == *old(sepc) + BREAKPOINT_WIDTH,
{
    *sepc += BREAKPOINT_WIDTH;
}

/// Prepares the call of the page-fault handler: the faulting address is the
/// value of `stval`, and a fault from user mode gets `USER` added to the flags
/// of the access.
pub fn handle_page_fault(
    access_flags: PageFaultFlags,
    is_user: bool,
    stval: usize,
) -> (request: TrapRequest)
    ensures
        request == page_fault_request(access_flags, is_user, stval),
{
    TrapRequest::PageFault {
        vaddr: stval,
        access_flags: access_flags.with_user(is_user),
        is_user,
    }
}

/// Dispatches a trap.
///
/// `tf` is the frame that the trap entry saved, `from_user` tells whether the
/// trap came from user mode, and `scause` and `stval` are the values of those
/// registers at the trap. The result says what the kernel has to do before it
/// returns from the trap. Only a breakpoint changes the frame here; a system
/// call changes it in [`complete_syscall`], once its result is known.
pub fn riscv_trap_handler(
    tf: &mut TrapFrame,
    from_user: bool,
    scause: usize,
    stval: usize,
) -> (request: TrapRequest)
    requires
        trap_kind(scause) == TrapKind::Breakpoint ==> old(tf).sepc + BREAKPOINT_WIDTH
            <= usize::MAX,
    ensures
        request == trap_request(*old(tf), from_user, scause, stval),
        *final(tf) == frame_after_trap(*old(tf), scause),
{
    match classify(scause) {
        TrapKind::Syscall => TrapRequest::Syscall { number: tf.regs.a7 },
        TrapKind::PageFault(access) => handle_page_fault(access, from_user, stval),
        TrapKind::Breakpoint => {
            handle_breakpoint(&mut tf.sepc);
            TrapRequest::Resume
        },
        TrapKind::Interrupt => TrapRequest::Irq { scause },
        TrapKind::Unhandled => TrapRequest::Fatal(
            FatalTrap::UnhandledTrap { cause: decode_cause(scause), frame: *tf },
        ),
        TrapKind::Unknown => TrapRequest::Fatal(
            FatalTrap::UnknownTrap { cause: decode_cause(scause), frame: *tf },
        ),
    }
}

/// Finishes a system call: writes the handler's result to `a0` and moves
/// `sepc` past the `ecall` instruction.
pub fn complete_syscall(tf: &mut TrapFrame, ret: isize)
    requires
        old(tf).sepc + SYSCALL_WIDTH <= usize::MAX,
    ensures
        *final(tf) == frame_after_syscall(*old(tf), ret),
{
    tf.regs.a0 = ret as usize;
    tf.sepc += SYSCALL_WIDTH;
}

/// Finishes a page fault: a fault that the handler took is resumed, and one
/// that it did not take is fatal.
pub fn complete_page_fault(
    tf: &TrapFrame,
    vaddr: usize,
    access_flags: PageFaultFlags,
    is_user: bool,
    handled: bool,
) -> (fatal: Option<FatalTrap>)
    ensures
        fatal == page_fault_outcome(*tf, vaddr, access_flags, is_user, handled),
{
    if handled {
        None
    } else {
        Some(
            FatalTrap::UnhandledPageFault {
                is_user,
                fault_vaddr: vaddr,
                access_flags,
                frame: *tf,
            },
        )
    }
}

/// Carries the floating-point state of the hardware over to the frame: the
/// `FS` field of the saved `sstatus` takes the value that it has in `sstatus`,
/// the register's value now, and no other bit of the frame changes.
pub fn preserve_fs(tf: &mut TrapFrame, sstatus: usize)
    ensures
        *final(tf) == (TrapFrame {
            sstatus: sstatus_with_fs(old(tf).sstatus, sstatus),
            ..*old(tf)
        }),
        final(tf).sstatus & FS_MASK == sstatus & FS_MASK,
        final(tf).sstatus & !FS_MASK == old(tf).sstatus & !FS_MASK,
{
    let fs = floating_point_state(sstatus);
    let saved = tf.sstatus;
    assert(fs == (sstatus & FS_MASK) >> 13);
    assert(fs <= 3) by (bit_vector)
        requires
            fs == (sstatus & 0x6000) >> 13,
    ;
    let updated = (saved & !FS_MASK) | (fs << 13);
    assert(updated == (saved & !0x6000usize) | (sstatus & 0x6000) && updated & 0x6000 == sstatus
        & 0x6000 && updated & !0x6000usize == saved & !0x6000usize) by (bit_vector)
        requires
            fs == (sstatus & 0x6000) >> 13,
            updated == (saved & !0x6000usize) | (fs << 13),
    ;
    tf.sstatus = updated;
}

/// A page fault on a load from user mode asks for the page-fault handler with
/// exactly `READ` and `USER` among the flags and with the value of `stval` as
/// the faulting address, and leaves the frame, its program counter included,
/// as it was. A fault from supervisor mode carries no `USER`; one on a store
/// or on a fetch carries `WRITE` or `EXECUTE` in place of `READ`.
pub proof fn lemma_page_fault_request(tf: TrapFrame, from_user: bool, scause: usize, stval: usize)
    requires
        scause == LOAD_PAGE_FAULT || scause == STORE_PAGE_FAULT || scause
            == INSTRUCTION_PAGE_FAULT,
    ensures
        trap_request(tf, from_user, scause, stval) == (TrapRequest::PageFault {
            vaddr: stval,
            access_flags: PageFaultFlags {
                read: scause == LOAD_PAGE_FAULT,
                write: scause == STORE_PAGE_FAULT,
                execute: scause == INSTRUCTION_PAGE_FAULT,
                user: from_user,
            },
            is_user: from_user,
        }),
        frame_after_trap(tf, scause) == tf,
{
}

/// A system call is asked for with the number in `a7` and leaves the frame
/// as it was until it is completed. Once it is completed with the result
/// `ret`, the program counter is the one of the trap plus the length of the
/// `ecall` instruction, `a0` holds `ret`, and nothing else has changed.
pub proof fn lemma_syscall_advances_pc(tf: TrapFrame, from_user: bool, stval: usize, ret: isize)
    requires
        tf.sepc + SYSCALL_WIDTH <= usize::MAX,
    ensures
        trap_request(tf, from_user, USER_ENV_CALL, stval) == (TrapRequest::Syscall {
            number: tf.regs.a7,
        }),
        frame_after_trap(tf, USER_ENV_CALL) == tf,
        frame_after_syscall(tf, ret).sepc == tf.sepc + SYSCALL_WIDTH,
        frame_after_syscall(tf, ret).regs.a0 == ret as usize,
        frame_after_syscall(tf, ret).sstatus == tf.sstatus,
        (GeneralRegisters { a0: tf.regs.a0, ..frame_after_syscall(tf, ret).regs })
            == tf.regs,
{
}

/// Whatever the program counter, a completed system call leaves the
/// handler's result in `a0`: the result itself where it is not negative, and
/// its two's complement where it is, so that -1 fills the register. What `a0`
/// held before, the first argument of the call, is gone, and every other
/// general-purpose register is kept.
pub proof fn lemma_syscall_result_in_a0(tf: TrapFrame, ret: isize)
    ensures
        frame_after_syscall(tf, ret).regs == (GeneralRegisters { a0: ret as usize, ..tf.regs }),
        ret >= 0 ==> frame_after_syscall(tf, ret).regs.a0 == ret,
        ret < 0 ==> frame_after_syscall(tf, ret).regs.a0 == ret + usize::MAX + 1,
        ret == -1 ==> frame_after_syscall(tf, ret).regs.a0 == usize::MAX,
{
    let all_ones = !0usize;
    let largest = usize::MAX;
    assert(largest <= all_ones) by (bit_vector)
        requires
            all_ones == !0usize,
    ;
    assert(ret >= 0 ==> ret as usize == ret) by (bit_vector);
    assert(ret < 0 ==> ret as usize == ret + all_ones + 1) by (bit_vector)
        requires
            all_ones == !0usize,
    ;
}

/// A breakpoint is resumed past the breakpoint instruction, and nothing but
/// the program counter changes.
pub proof fn lemma_breakpoint_resumes(tf: TrapFrame, from_user: bool, stval: usize)
    requires
        tf.sepc + BREAKPOINT_WIDTH <= usize::MAX,
    ensures
        trap_request(tf, from_user, BREAKPOINT, stval) == TrapRequest::Resume,
        frame_after_trap(tf, BREAKPOINT).sepc == tf.sepc + BREAKPOINT_WIDTH,
        frame_after_trap(tf, BREAKPOINT) == (TrapFrame {
            sepc: frame_after_trap(tf, BREAKPOINT).sepc,
            ..tf
        }),
{
}

/// A trap whose cause the dispatcher does not route is always fatal: the
/// request is never one that resumes, it carries the cause and the frame as
/// the trap entry saved it, and the dispatcher leaves the frame as it was.
pub proof fn lemma_unrouted_cause_is_fatal(
    tf: TrapFrame,
    from_user: bool,
    scause: usize,
    stval: usize,
)
    requires
        trap_kind(scause) == TrapKind::Unknown || trap_kind(scause) == TrapKind::Unhandled,
    ensures
        trap_request(tf, from_user, scause, stval) is Fatal,
        trap_kind(scause) == TrapKind::Unknown ==> trap_request(tf, from_user, scause, stval)
            == TrapRequest::Fatal(FatalTrap::UnknownTrap { cause: raw_cause(scause), frame: tf }),
        trap_kind(scause) == TrapKind::Unhandled ==> trap_request(tf, from_user, scause, stval)
            == TrapRequest::Fatal(
            FatalTrap::UnhandledTrap { cause: raw_cause(scause), frame: tf },
        ),
        frame_after_trap(tf, scause) == tf,
{
}

/// The causes that the dispatcher does not route: every cause outside the
/// standard ones is unknown, and every standard exception but the system
/// call, the three page faults and the breakpoint is unhandled. Interrupts
/// are routed if and only if they are standard.
pub proof fn lemma_unrouted_causes(scause: usize)
    ensures
        trap_kind(scause) == TrapKind::Unknown <==> !is_standard(raw_cause(scause)),
        trap_kind(scause) == TrapKind::Unhandled <==> (!is_interrupt(scause) && is_standard(
            raw_cause(scause),
        ) && scause != USER_ENV_CALL && scause != LOAD_PAGE_FAULT && scause != STORE_PAGE_FAULT
            && scause != INSTRUCTION_PAGE_FAULT && scause != BREAKPOINT),
{
}

} // verus!
