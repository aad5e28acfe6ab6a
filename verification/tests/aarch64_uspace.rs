use axcpu::aarch64::sysreg::irqs_enabled;
use axcpu::aarch64::uspace::UspaceContext;
use axcpu::aarch64::{TaskContext, TrapFrame};

fn aarch64_captured_frame() -> TrapFrame {
    let mut tf = TrapFrame::new();
    for (i, r) in tf.r.iter_mut().enumerate() {
        *r = 0x100 + i as u64;
    }
    tf.usp = 0xffff_f000;
    tf.elr = 0x40_0000;
    // Captured at EL1: the mode field (bits 0 to 3) names EL1h.
    tf.spsr = 0x6000_03c5;
    tf
}

#[test]
fn aarch64_empty_context_is_all_zero() {
    let ctx = UspaceContext::empty();
    assert_eq!(*ctx.trap_frame(), TrapFrame { r: [0; 31], usp: 0, elr: 0, spsr: 0 });
    assert_eq!(TrapFrame::new(), TrapFrame::default());
    assert_eq!(ctx.get_ip(), 0);
    assert_eq!(ctx.get_sp(), 0);
}

#[test]
fn aarch64_new_context_isolates_fields() {
    let ctx = UspaceContext::new(0x40_0000, 0xffff_f000, 0xabcd);
    assert_eq!(ctx.get_ip(), 0x40_0000);
    assert_eq!(ctx.get_sp(), 0xffff_f000);
    let frame = *ctx.trap_frame();
    assert_eq!(frame.r[0], 0xabcd);
    assert!(frame.r[1..].iter().all(|&r| r == 0));
    // EL0t, with D, A and F masked and I unmasked.
    assert_eq!(frame.spsr, 0x340);
    assert_eq!(
        frame,
        TrapFrame {
            r: {
                let mut r = [0; 31];
                r[0] = 0xabcd;
                r
            },
            usp: 0xffff_f000,
            elr: 0x40_0000,
            spsr: 0x340,
        }
    );
}

#[test]
fn aarch64_new_context_starts_with_irqs_enabled() {
    let ctx = UspaceContext::new(0x40_0000, 0xffff_f000, 0);
    assert!(irqs_enabled(ctx.trap_frame().spsr));
}

#[test]
fn aarch64_context_from_frame_round_trips() {
    let tf = aarch64_captured_frame();
    let ctx = UspaceContext::from(&tf);
    assert_eq!(ctx.get_ip(), 0x40_0000);
    assert_eq!(ctx.get_sp(), 0xffff_f000);
    assert_eq!(ctx.trap_frame().r[0], 0x100);
    assert_eq!(ctx.trap_frame().r, tf.r);
    // The mode is EL0t and every other bit of the status is kept.
    assert_eq!(ctx.trap_frame().spsr, 0x6000_03c0);
    let mut expected = tf;
    expected.spsr = 0x6000_03c0;
    assert_eq!(*ctx.trap_frame(), expected);
}

#[test]
fn aarch64_context_from_frame_returns_to_user_mode() {
    // Whatever the status held, the context has mode EL0t.
    for spsr in [0u64, 0x4, 0x5, 0xf, 0x3c5, 0x340, u64::MAX] {
        let mut tf = aarch64_captured_frame();
        tf.spsr = spsr;
        let ctx = UspaceContext::from(&tf);
        assert_eq!(ctx.trap_frame().spsr & 0xf, 0);
        assert_eq!(ctx.trap_frame().spsr, spsr & !0xf);
    }
}

#[test]
fn aarch64_context_from_user_frame_keeps_the_frame() {
    let mut tf = aarch64_captured_frame();
    tf.spsr = 0x6000_0340;
    assert_eq!(*UspaceContext::from(&tf).trap_frame(), tf);
}

#[test]
fn aarch64_setters_change_one_field() {
    let tf = aarch64_captured_frame();
    let mut ctx = UspaceContext::from(&tf);

    ctx.set_ip(0x50_0000);
    let mut expected = *UspaceContext::from(&tf).trap_frame();
    expected.elr = 0x50_0000;
    assert_eq!(*ctx.trap_frame(), expected);

    ctx.set_sp(0x7000);
    expected.usp = 0x7000;
    assert_eq!(*ctx.trap_frame(), expected);

    ctx.set_retval(0xffff_ffff_ffff_fff2);
    expected.r[0] = 0xffff_ffff_ffff_fff2;
    assert_eq!(*ctx.trap_frame(), expected);
    assert_eq!(ctx.get_ip(), 0x50_0000);
    assert_eq!(ctx.get_sp(), 0x7000);
}

#[test]
fn aarch64_irqs_enabled_reads_the_i_bit() {
    assert!(irqs_enabled(0));
    assert!(!irqs_enabled(0x80));
    assert!(!irqs_enabled(0x3c0));
    assert!(irqs_enabled(0x340));
    assert!(irqs_enabled(!0x80));
    assert!(!irqs_enabled(u64::MAX));
}

#[test]
fn aarch64_task_context_init_and_switch() {
    let mut a = TaskContext::new();
    assert_eq!(a, TaskContext::default());
    a.r19 = 19;
    a.init(0x4008_0000, 0x4100_0000, 0x4200_0000);
    let mut expected = TaskContext::new();
    expected.r19 = 19;
    expected.lr = 0x4008_0000;
    expected.sp = 0x4100_0000;
    expected.tpidr_el0 = 0x4200_0000;
    assert_eq!(a, expected);

    let mut cpu = TaskContext::new();
    cpu.lr = 0x1234;
    cpu.r29 = 0x5678;
    let live = cpu;
    let mut me = TaskContext::new();
    me.switch_to(&a, &mut cpu);
    assert_eq!(me, live);
    assert_eq!(cpu, a);
}
