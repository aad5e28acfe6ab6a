use axcpu::riscv::uspace::UspaceContext;
use axcpu::riscv::{GeneralRegisters, TrapFrame};

fn riscv_captured_frame() -> TrapFrame {
    let mut tf = TrapFrame::new();
    tf.regs.ra = 0x1111;
    tf.regs.sp = 0x3f_ffff_f000;
    tf.regs.gp = 0x2222;
    tf.regs.tp = 0x3333;
    tf.regs.a0 = 0xfeed;
    tf.regs.a7 = 64;
    tf.regs.t6 = 0x4444;
    tf.sepc = 0x1_0000;
    // Captured in supervisor mode: SPP (bit 8) is set.
    tf.sstatus = 0x8000_0002_0004_6120;
    tf
}

#[test]
fn riscv_empty_context_is_all_zero() {
    let ctx = UspaceContext::empty();
    assert_eq!(*ctx.trap_frame(), TrapFrame::new());
    assert_eq!(ctx.get_ip(), 0);
    assert_eq!(ctx.get_sp(), 0);
}

#[test]
fn riscv_new_context_isolates_fields() {
    let ctx = UspaceContext::new(0x1_0000, 0x3f_ffff_f000, 0xabcd);
    assert_eq!(ctx.get_ip(), 0x1_0000);
    assert_eq!(ctx.get_sp(), 0x3f_ffff_f000);
    let frame = *ctx.trap_frame();
    assert_eq!(frame.regs.a0, 0xabcd);
    // SPIE (bit 5) and SUM (bit 18), and SPP (bit 8) clear.
    assert_eq!(frame.sstatus, 0x4_0020);
    assert_eq!(frame.sstatus & (1 << 8), 0);
    let mut others = frame.regs;
    others.a0 = 0;
    others.sp = 0;
    assert_eq!(others, GeneralRegisters::new());
}

#[test]
fn riscv_context_from_frame_round_trips() {
    let tf = riscv_captured_frame();
    let ctx = UspaceContext::from(&tf);
    assert_eq!(ctx.get_ip(), 0x1_0000);
    assert_eq!(ctx.get_sp(), 0x3f_ffff_f000);
    assert_eq!(ctx.trap_frame().regs.a0, 0xfeed);
    assert_eq!(ctx.trap_frame().regs, tf.regs);
    // SPP is cleared and every other bit of the status is kept.
    assert_eq!(ctx.trap_frame().sstatus, 0x8000_0002_0004_6020);
    let mut expected = tf;
    expected.sstatus = 0x8000_0002_0004_6020;
    assert_eq!(*ctx.trap_frame(), expected);
}

#[test]
fn riscv_context_from_frame_returns_to_user_mode() {
    // Whatever the status held, the context has SPP clear.
    for sstatus in [0usize, 0x100, 0x4_0120, 0x4_0020, usize::MAX] {
        let mut tf = riscv_captured_frame();
        tf.sstatus = sstatus;
        let ctx = UspaceContext::from(&tf);
        assert_eq!(ctx.trap_frame().sstatus & 0x100, 0);
        assert_eq!(ctx.trap_frame().sstatus, sstatus & !0x100);
    }
}

#[test]
fn riscv_context_from_user_frame_keeps_the_frame() {
    let mut tf = riscv_captured_frame();
    tf.sstatus = 0x4_6020;
    assert_eq!(*UspaceContext::from(&tf).trap_frame(), tf);
}

#[test]
fn riscv_setters_change_one_field() {
    let tf = riscv_captured_frame();
    let mut ctx = UspaceContext::from(&tf);

    ctx.set_ip(0x2_0000);
    let mut expected = *UspaceContext::from(&tf).trap_frame();
    expected.sepc = 0x2_0000;
    assert_eq!(*ctx.trap_frame(), expected);
    assert_eq!(ctx.get_ip(), 0x2_0000);

    ctx.set_sp(0x7000);
    expected.regs.sp = 0x7000;
    assert_eq!(*ctx.trap_frame(), expected);
    assert_eq!(ctx.get_sp(), 0x7000);

    ctx.set_retval(usize::MAX);
    expected.regs.a0 = usize::MAX;
    assert_eq!(*ctx.trap_frame(), expected);
}
