use axcpu::x86_64::gdt::{
    ucode64_selector, udata_selector, UCODE64_INDEX, UCODE64_SELECTOR, UDATA_INDEX,
    UDATA_SELECTOR, USER_RING,
};
use axcpu::x86_64::uspace::{UspaceContext, USER_RFLAGS};
use axcpu::x86_64::{ContextSwitchFrame, TaskContext, TrapFrame};

fn x86_64_captured_frame() -> TrapFrame {
    TrapFrame {
        rax: 1,
        rcx: 2,
        rdx: 3,
        rbx: 4,
        rbp: 5,
        rsi: 6,
        rdi: 7,
        r8: 8,
        r9: 9,
        r10: 10,
        r11: 11,
        r12: 12,
        r13: 13,
        r14: 14,
        r15: 15,
        vector: 0x80,
        error_code: 0x4,
        rip: 0x40_1000,
        // Kernel segments, as a frame of a trap from ring 0 holds them.
        cs: 0x10,
        rflags: 0x246,
        rsp: 0x7fff_ffff_e000,
        ss: 0x18,
    }
}

#[test]
fn x86_64_user_selectors_point_at_ring_three() {
    assert_eq!(udata_selector(), 0x2b);
    assert_eq!(ucode64_selector(), 0x33);
    assert_eq!(udata_selector(), UDATA_SELECTOR);
    assert_eq!(ucode64_selector(), UCODE64_SELECTOR);
    assert_eq!(udata_selector() >> 3, UDATA_INDEX);
    assert_eq!(ucode64_selector() >> 3, UCODE64_INDEX);
    assert_eq!(udata_selector() & 3, USER_RING);
    assert_eq!(ucode64_selector() & 3, USER_RING);
}

#[test]
fn x86_64_empty_context_is_all_zero() {
    let ctx = UspaceContext::empty();
    assert_eq!(*ctx.trap_frame(), TrapFrame::new());
    assert_eq!(*ctx.trap_frame(), TrapFrame::default());
    assert_eq!(ctx.trap_frame().cs, 0);
    assert_eq!(ctx.get_ip(), 0);
    assert_eq!(ctx.get_sp(), 0);
}

#[test]
fn x86_64_new_context_isolates_fields() {
    let ctx = UspaceContext::new(0x40_1000, 0x7fff_ffff_e000, 0xabcd);
    assert_eq!(ctx.get_ip(), 0x40_1000);
    assert_eq!(ctx.get_sp(), 0x7fff_ffff_e000);
    let frame = *ctx.trap_frame();
    assert_eq!(frame.rdi, 0xabcd);
    assert_eq!(frame.cs, 0x33);
    assert_eq!(frame.ss, 0x2b);
    // IF alone: interrupts enabled, IOPL zero.
    assert_eq!(frame.rflags, 0x200);
    assert_eq!(frame.rflags, USER_RFLAGS);
    let mut others = frame;
    others.rdi = 0;
    others.rip = 0;
    others.cs = 0;
    others.rflags = 0;
    others.rsp = 0;
    others.ss = 0;
    assert_eq!(others, TrapFrame::new());
}

#[test]
fn x86_64_context_from_frame_forces_user_segments() {
    let tf = x86_64_captured_frame();
    let ctx = UspaceContext::from(&tf);
    assert_eq!(ctx.get_ip(), 0x40_1000);
    assert_eq!(ctx.get_sp(), 0x7fff_ffff_e000);
    assert_eq!(ctx.trap_frame().rax, 1);
    let mut expected = tf;
    expected.cs = 0x33;
    expected.ss = 0x2b;
    assert_eq!(*ctx.trap_frame(), expected);

    // Whatever the frame held in the two fields.
    let mut odd = tf;
    odd.cs = u64::MAX;
    odd.ss = 0;
    assert_eq!(*UspaceContext::from(&odd).trap_frame(), expected);
}

#[test]
fn x86_64_setters_change_one_field() {
    let tf = x86_64_captured_frame();
    let mut ctx = UspaceContext::from(&tf);
    let mut expected = *ctx.trap_frame();

    ctx.set_ip(0x50_0000);
    expected.rip = 0x50_0000;
    assert_eq!(*ctx.trap_frame(), expected);

    ctx.set_sp(0x7000);
    expected.rsp = 0x7000;
    assert_eq!(*ctx.trap_frame(), expected);

    ctx.set_retval(usize::MAX - 13);
    expected.rax = u64::MAX - 13;
    assert_eq!(*ctx.trap_frame(), expected);
    assert_eq!(ctx.get_ip(), 0x50_0000);
    assert_eq!(ctx.get_sp(), 0x7000);
}

#[test]
fn x86_64_task_context_init_places_the_first_frame() {
    let mut ctx = TaskContext::new();
    assert_eq!(ctx, TaskContext::default());
    assert_eq!(ctx, TaskContext { kstack_top: 0, rsp: 0, fs_base: 0 });
    let frame = ctx.init(0x20_0000, 0xffff_8000_0010_0000, 0x7000_0000);
    assert_eq!(
        ctx,
        TaskContext {
            kstack_top: 0xffff_8000_0010_0000,
            rsp: 0xffff_8000_000f_ffc0,
            fs_base: 0x7000_0000,
        }
    );
    assert_eq!(
        frame,
        ContextSwitchFrame { r15: 0, r14: 0, r13: 0, r12: 0, rbx: 0, rbp: 0, rip: 0x20_0000 }
    );
    // When the switch has popped the frame and returned, the stack pointer
    // is one word below a multiple of 16.
    assert_eq!((ctx.rsp + 56 + 8) % 16, 0);

    let frame = ctx.init(1, 64, 0);
    assert_eq!(ctx.rsp, 0);
    assert_eq!(frame.rip, 1);
}

#[test]
fn x86_64_task_context_switch_exchanges_state() {
    let a = TaskContext { kstack_top: 0x1000, rsp: 0xfc0, fs_base: 1 };
    let mut cpu = TaskContext { kstack_top: 0x9000, rsp: 0x8f00, fs_base: 2 };
    let mut me = TaskContext::new();
    me.switch_to(&a, &mut cpu);
    assert_eq!(me, TaskContext { kstack_top: 0x9000, rsp: 0x8f00, fs_base: 2 });
    assert_eq!(cpu, a);
}
