use axcpu::riscv::TaskContext;

#[test]
fn riscv_task_context_starts_zeroed() {
    let ctx = TaskContext::new();
    assert_eq!(ctx, TaskContext::default());
    assert_eq!(ctx.ra, 0);
    assert_eq!(ctx.sp, 0);
    assert_eq!(ctx.s0, 0);
    assert_eq!(ctx.s11, 0);
    assert_eq!(ctx.tp, 0);
}

#[test]
fn riscv_task_context_init_sets_entry_stack_and_tls() {
    let mut ctx = TaskContext::new();
    ctx.s5 = 55;
    ctx.init(0x8020_0000, 0x8100_0000, 0x8200_0000);
    let mut expected = TaskContext::new();
    expected.s5 = 55;
    expected.ra = 0x8020_0000;
    expected.sp = 0x8100_0000;
    expected.tp = 0x8200_0000;
    assert_eq!(ctx, expected);
}

#[test]
fn riscv_switch_saves_the_cpu_and_loads_the_next() {
    let mut next = TaskContext::new();
    next.init(0x8020_0000, 0x8100_0000, 0);
    let mut cpu = TaskContext::new();
    cpu.ra = 0x8020_1234;
    cpu.sp = 0x80ff_ff00;
    cpu.s1 = 7;
    let live = cpu;

    let mut current = TaskContext::new();
    current.switch_to(&next, &mut cpu);
    assert_eq!(current, live);
    assert_eq!(cpu, next);
}

#[test]
fn riscv_switch_there_and_back_resumes_the_first_stream() {
    let mut a = TaskContext::new();
    let mut b = TaskContext::new();
    b.init(0x8020_0000, 0x8100_0000, 0);

    let mut cpu = TaskContext::new();
    cpu.ra = 0x8020_1234;
    cpu.sp = 0x80ff_ff00;
    cpu.s0 = 1;
    cpu.s11 = 12;
    let live = cpu;

    a.switch_to(&b, &mut cpu);
    // The second stream runs and changes what the CPU holds.
    cpu.ra = 0x8020_9999;
    cpu.sp -= 0x40;
    cpu.s0 = 0xdead;
    let other = cpu;
    let resume = a;
    b.switch_to(&resume, &mut cpu);

    assert_eq!(cpu, live);
    assert_eq!(b, other);
}

#[test]
fn riscv_ping_pong_counts_two_per_round() {
    const ROUNDS: usize = 10;
    // Two streams that each add one to the counter and switch to the other.
    // Each keeps, in a callee-saved register, how often it has run.
    let mut a = TaskContext::new();
    let mut b = TaskContext::new();
    a.init(0xa000, 0x1_0000, 0);
    b.init(0xb000, 0x2_0000, 0);
    let mut boot = TaskContext::new();
    let mut cpu = TaskContext::new();
    boot.switch_to(&a, &mut cpu);

    let mut counter = 0;
    let mut order = Vec::new();
    for round in 0..ROUNDS {
        assert_eq!(cpu.ra, 0xa000);
        assert_eq!(cpu.sp, 0x1_0000);
        assert_eq!(cpu.s0, round);
        cpu.s0 += 1;
        counter += 1;
        order.push('a');
        let to = b;
        a.switch_to(&to, &mut cpu);

        assert_eq!(cpu.ra, 0xb000);
        assert_eq!(cpu.sp, 0x2_0000);
        assert_eq!(cpu.s0, round);
        cpu.s0 += 1;
        counter += 1;
        order.push('b');
        let to = a;
        b.switch_to(&to, &mut cpu);
    }
    assert_eq!(counter, 2 * ROUNDS);
    assert_eq!(order.len(), 2 * ROUNDS);
    assert!(order.chunks(2).all(|pair| pair == ['a', 'b']));
    assert_eq!(a.s0, ROUNDS);
    assert_eq!(b.s0, ROUNDS);
}
