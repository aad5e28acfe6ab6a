use axcpu::loongarch64::uspace::UspaceContext;
use axcpu::loongarch64::{GeneralRegisters, TaskContext, TrapFrame};

fn loongarch64_captured_frame() -> TrapFrame {
    let mut tf = TrapFrame::new();
    tf.regs.ra = 0x1111;
    tf.regs.tp = 0x2222;
    tf.regs.sp = 0x7fff_f000;
    tf.regs.a0 = 0xfeed;
    tf.regs.u0 = 0x3333;
    tf.regs.s8 = 0x4444;
    // Captured in kernel mode: PPLV (bits 0 and 1) is zero.
    tf.prmd = 0b100;
    tf.era = 0x12_0000;
    tf
}

#[test]
fn loongarch64_empty_context_is_all_zero() {
    let ctx = UspaceContext::empty();
    assert_eq!(*ctx.trap_frame(), TrapFrame::new());
    assert_eq!(*ctx.trap_frame(), TrapFrame::default());
    assert_eq!(ctx.trap_frame().regs, GeneralRegisters::default());
    assert_eq!(ctx.get_ip(), 0);
    assert_eq!(ctx.get_sp(), 0);
}

#[test]
fn loongarch64_new_context_isolates_fields() {
    let ctx = UspaceContext::new(0x12_0000, 0x7fff_f000, 3);
    assert_eq!(ctx.get_ip(), 0x12_0000);
    assert_eq!(ctx.get_sp(), 0x7fff_f000);
    let frame = *ctx.trap_frame();
    assert_eq!(frame.regs.a0, 3);
    // Privilege level 3 in bits 0 and 1, and PIE in bit 2.
    assert_eq!(frame.prmd, 0b111);
    let mut others = frame.regs;
    others.a0 = 0;
    others.sp = 0;
    assert_eq!(others, GeneralRegisters::new());
}

#[test]
fn loongarch64_context_from_frame_round_trips() {
    let tf = loongarch64_captured_frame();
    let ctx = UspaceContext::from(&tf);
    assert_eq!(ctx.get_ip(), 0x12_0000);
    assert_eq!(ctx.get_sp(), 0x7fff_f000);
    assert_eq!(ctx.trap_frame().regs.a0, 0xfeed);
    assert_eq!(ctx.trap_frame().regs, tf.regs);
    // PPLV is privilege level 3 and every other bit of the mode is kept.
    assert_eq!(ctx.trap_frame().prmd, 0b111);
    let mut expected = tf;
    expected.prmd = 0b111;
    assert_eq!(*ctx.trap_frame(), expected);
}

#[test]
fn loongarch64_context_from_frame_returns_to_user_mode() {
    // Whatever the mode information held, the context has PPLV 3.
    for prmd in [0usize, 0b01, 0b10, 0b11, 0b100, 0b1000, usize::MAX] {
        let mut tf = loongarch64_captured_frame();
        tf.prmd = prmd;
        let ctx = UspaceContext::from(&tf);
        assert_eq!(ctx.trap_frame().prmd & 0b11, 0b11);
        assert_eq!(ctx.trap_frame().prmd, prmd | 0b11);
    }
}

#[test]
fn loongarch64_context_from_user_frame_keeps_the_frame() {
    let mut tf = loongarch64_captured_frame();
    tf.prmd = 0b111;
    assert_eq!(*UspaceContext::from(&tf).trap_frame(), tf);
}

#[test]
fn loongarch64_setters_change_one_field() {
    let tf = loongarch64_captured_frame();
    let mut ctx = UspaceContext::from(&tf);

    ctx.set_ip(0x2_0000);
    let mut expected = *UspaceContext::from(&tf).trap_frame();
    expected.era = 0x2_0000;
    assert_eq!(*ctx.trap_frame(), expected);

    ctx.set_sp(0x7000);
    expected.regs.sp = 0x7000;
    assert_eq!(*ctx.trap_frame(), expected);

    ctx.set_retval(11);
    expected.regs.a0 = 11;
    assert_eq!(*ctx.trap_frame(), expected);
    assert_eq!(ctx.get_ip(), 0x2_0000);
    assert_eq!(ctx.get_sp(), 0x7000);
}

#[test]
fn loongarch64_task_context_init_and_switch() {
    let mut a = TaskContext::new();
    assert_eq!(a, TaskContext::default());
    a.s3 = 33;
    a.init(0x9000_0000, 0x9100_0000, 0x9200_0000);
    let mut expected = TaskContext::new();
    expected.s3 = 33;
    expected.ra = 0x9000_0000;
    expected.sp = 0x9100_0000;
    expected.tp = 0x9200_0000;
    assert_eq!(a, expected);

    let mut cpu = TaskContext::new();
    cpu.ra = 0x1234;
    cpu.fp = 0x5678;
    let live = cpu;
    let mut me = TaskContext::new();
    me.switch_to(&a, &mut cpu);
    assert_eq!(me, live);
    assert_eq!(cpu, a);
}
