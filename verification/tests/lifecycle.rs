use alkyn::registry::{lookup_by_idx, lookup_by_name, set_registry_for_idx, Registry};
use alkyn::systick::{run_ctxswitch, run_systick, switch_context, SysTickState};
use alkyn::thread::{
    self, create_thread, create_thread_with_config, create_tcb, kill_thread, Core, ThreadStatus,
    ThreadingState, FRAME_WORDS, MAX_THREADS, MIN_STACK_WORDS,
};
use alkyn::ErrorKind;

fn stack() -> Vec<u32> {
    vec![0u32; 64]
}

#[test]
fn create_tcb_synthesizes_the_initial_frame() {
    let mut s = vec![0u32; 64];
    let tcb = create_tcb(&mut s, 0x1234_5678, 3, true, Core::Core1).expect("tcb");
    assert_eq!(tcb.sp, (64 - FRAME_WORDS) as u32);
    assert_eq!(tcb.priority, 3);
    assert!(tcb.privileged);
    assert_eq!(tcb.status, ThreadStatus::Ready);
    assert_eq!(tcb.sleep_ticks, 0);
    assert_eq!(tcb.affinity, Core::Core1);
    // The register image at the top of the stack.
    assert_eq!(s[63], 1 << 24); // xPSR
    assert_eq!(s[62], 0x1234_5678); // entry point
    assert_eq!(s[61], 0xFFFF_FFFD); // exception-return link
    assert_eq!(s[60], 0xCCCC_CCCC); // R12
    assert_eq!(s[56], 0x0000_0000); // R0
    assert_eq!(s[48], 0x8888_8888); // R8
    // The words below the frame are untouched.
    assert_eq!(s[47], 0);
    assert_eq!(s[0], 0);
}

#[test]
fn create_tcb_rejects_a_short_stack() {
    let mut s = vec![0u32; MIN_STACK_WORDS - 1];
    let r = create_tcb(&mut s, 0x1000, 1, false, Core::Any);
    assert_eq!(r, Err(ErrorKind::InvalidConfiguration));
    assert!(s.iter().all(|w| *w == 0));
}

#[test]
fn create_thread_rejects_a_short_stack() {
    let mut st = ThreadingState::new();
    let mut reg = Registry::new();
    let mut s = vec![0u32; 8];
    let r = create_thread(&mut st, &mut reg, "tiny", &mut s, 0x1000, Core::Core0);
    assert_eq!(r, Err(ErrorKind::InvalidConfiguration));
}

#[test]
fn unprivileged_creation_is_denied_after_boot() {
    let mut st = ThreadingState::new();
    let mut idle0 = stack();
    let mut idle1 = stack();
    thread::init(&mut st, &mut idle0, &mut idle1, 0xE11E);
    // The running thread on core 0 is the unprivileged idle thread.
    let mut reg = Registry::new();
    let mut s = stack();
    let r = create_thread(&mut st, &mut reg, "late", &mut s, 0x1000, Core::Core0);
    assert_eq!(r, Err(ErrorKind::PermissionDenied));
}

#[test]
fn privileged_thread_may_spawn_after_boot() {
    let mut st = ThreadingState::new();
    let mut reg = Registry::new();
    let mut s = stack();
    create_thread_with_config(
        &mut st, &mut reg, "root", &mut s, 0x1000, 5, true, Core::Core0, Core::Core0,
    )
    .expect("boot-window thread");
    let mut idle0 = stack();
    let mut idle1 = stack();
    thread::init(&mut st, &mut idle0, &mut idle1, 0xE11E);
    run_ctxswitch(&mut st, Core::Core0);
    switch_context(&mut st, Core::Core0, 0x2000_0100);
    let mut s2 = stack();
    let r = create_thread(&mut st, &mut reg, "child", &mut s2, 0x2000, Core::Core0);
    assert!(r.is_ok());
}

#[test]
fn table_fills_to_capacity_then_reports_exhaustion() {
    let mut st = ThreadingState::new();
    let mut reg = Registry::new();
    // The boot window admits anyone; fill all but the two idle slots.
    for i in 0..MAX_THREADS - 2 {
        let mut s = stack();
        let name = format!("t{}", i);
        create_thread(&mut st, &mut reg, &name, &mut s, 0x1000, Core::Core0)
            .unwrap_or_else(|_| panic!("slot {}", i));
    }
    let mut idle0 = stack();
    let mut idle1 = stack();
    thread::init(&mut st, &mut idle0, &mut idle1, 0xE11E);
    // All 256 slots are taken; the next attempt is refused.
    let mut s = stack();
    let r = create_thread(&mut st, &mut reg, "extra", &mut s, 0x1000, Core::Core0);
    assert_eq!(r, Err(ErrorKind::ResourceExhausted));
    // Killing one thread frees its slot for reuse.
    let freed = lookup_by_name(&reg, "t7").expect("registered");
    kill_thread(&mut st, freed);
    let mut s2 = stack();
    let reused = create_thread(&mut st, &mut reg, "reuse", &mut s2, 0x1000, Core::Core0);
    // Creation is allowed again only from the boot code's point of view;
    // after boot the idle thread lacks privilege, which is checked after
    // capacity.
    assert_eq!(reused, Err(ErrorKind::PermissionDenied));
}

#[test]
fn registry_lookup_and_overwrite() {
    let mut reg = Registry::new();
    let a = alkyn::thread::ThreadId { idx: 4, gen: 0 };
    let b = alkyn::thread::ThreadId { idx: 9, gen: 2 };
    assert_eq!(lookup_by_name(&reg, "svc"), None);
    set_registry_for_idx(&mut reg, a, "svc");
    assert_eq!(lookup_by_name(&reg, "svc"), Some(a));
    set_registry_for_idx(&mut reg, b, "svc");
    assert_eq!(lookup_by_name(&reg, "svc"), Some(b));
    assert_eq!(lookup_by_name(&reg, "other"), None);

    set_registry_for_idx(&mut reg, a, "first");
    assert_eq!(lookup_by_idx(&reg, a), Some(String::from("first")));
    assert_eq!(lookup_by_idx(&reg, b), Some(String::from("svc")));
    assert_eq!(lookup_by_idx(&reg, alkyn::thread::ThreadId { idx: 1, gen: 1 }), None);
}

#[test]
fn tick_counter_accumulates_with_wraparound() {
    let mut st = ThreadingState::new();
    let mut idle0 = stack();
    let mut idle1 = stack();
    thread::init(&mut st, &mut idle0, &mut idle1, 0xE11E);
    assert_eq!(alkyn::thread::get_counter(&st), 0);

    // A falling sample: the counter advances by the difference.
    st.prev_cnt = 0;
    run_systick(&mut st, Core::Core0, 0);
    assert_eq!(alkyn::thread::get_counter(&st), 0);
    st.prev_cnt = 100;
    run_systick(&mut st, Core::Core0, 40);
    assert_eq!(alkyn::thread::get_counter(&st), 60);
    assert_eq!(st.prev_cnt, 40);

    // A rising sample means the counter wrapped since the last read.
    run_systick(&mut st, Core::Core0, 50);
    assert_eq!(alkyn::thread::get_counter(&st), 60 + 50 + (u32::MAX - 40) as u64);
}

#[test]
fn tick_timer_refuses_double_enable() {
    let mut timer = SysTickState::new();
    assert!(!timer.enabled);
    assert_eq!(timer.enable(250_000), Ok(()));
    assert!(timer.enabled);
    assert_eq!(timer.reload, 250_000);
    assert_eq!(timer.enable(250_000), Err(ErrorKind::DoubleInitialization));
    assert_eq!(timer.enable(125_000), Err(ErrorKind::DoubleInitialization));
}

#[test]
fn core_allowed_affinities() {
    let allowed0 = Core::get_allowed(0);
    assert_eq!(allowed0, vec![Core::Core0, Core::Any]);
    let allowed1 = Core::get_allowed(1);
    assert_eq!(allowed1, vec![Core::Core1, Core::Any]);
    let pattern = vec![0u8, 1, 1];
    assert_eq!(
        Core::from_slice(&pattern),
        vec![Core::Core0, Core::Core1, Core::Core1, Core::Any]
    );
}

#[test]
fn set_next_to_curr_completes_the_handoff() {
    let mut st = ThreadingState::new();
    let mut reg = Registry::new();
    let mut s = stack();
    create_thread_with_config(
        &mut st, &mut reg, "a", &mut s, 0x1000, 5, false, Core::Core0, Core::Core0,
    )
    .expect("thread a");
    let mut idle0 = stack();
    let mut idle1 = stack();
    thread::init(&mut st, &mut idle0, &mut idle1, 0xE11E);
    run_ctxswitch(&mut st, Core::Core0);
    assert_ne!(st.cores[0].current, st.cores[0].next);
    st.set_next_to_curr(Core::Core0);
    assert_eq!(st.cores[0].current, st.cores[0].next);
}
