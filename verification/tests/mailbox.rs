use alkyn::msg::{check_receive, receive, Message, Payload};
use alkyn::registry::Registry;
use alkyn::systick::{run_ctxswitch, run_systick, switch_context};
use alkyn::thread::{self, create_thread_with_config, Core, ThreadStatus, ThreadingState};
use alkyn::ErrorKind;

fn stack() -> Vec<u32> {
    vec![0u32; 64]
}

/// Boots a state with A (priority 5, core 0) and B (priority 1, core 1),
/// and hands each core to its thread.
fn booted_a_b() -> (ThreadingState, alkyn::thread::ThreadId, alkyn::thread::ThreadId) {
    let mut st = ThreadingState::new();
    let mut reg = Registry::new();
    let mut stack_a = stack();
    let mut stack_b = stack();
    let id_a = create_thread_with_config(
        &mut st, &mut reg, "a", &mut stack_a, 0x1000, 5, false, Core::Core0, Core::Core0,
    )
    .expect("thread a");
    let id_b = create_thread_with_config(
        &mut st, &mut reg, "b", &mut stack_b, 0x2000, 1, false, Core::Core1, Core::Core1,
    )
    .expect("thread b");
    let mut idle0 = stack();
    let mut idle1 = stack();
    thread::init(&mut st, &mut idle0, &mut idle1, 0xE11E);
    run_ctxswitch(&mut st, Core::Core0);
    switch_context(&mut st, Core::Core0, 0x2000_0100);
    run_ctxswitch(&mut st, Core::Core1);
    switch_context(&mut st, Core::Core1, 0x2000_0200);
    (st, id_a, id_b)
}

#[test]
fn message_new_wraps_payload() {
    let m = Message::new(Payload::Unsigned(7));
    assert_eq!(m.raw.payload, Payload::Unsigned(7));
}

#[test]
fn send_and_receive_round_trip_exactly_once() {
    let (mut st, id_a, id_b) = booted_a_b();
    let delivered = Message::new(Payload::Unsigned(42)).send(&mut st, id_b, Core::Core0);
    assert_eq!(delivered, Ok(id_b));

    // The message sits in B's mailbox and in no other thread's.
    assert_eq!(st.slots[id_b.idx].mailbox.len(), 1);
    for i in 0..st.slots.len() {
        if i != id_b.idx {
            assert_eq!(st.slots[i].mailbox.len(), 0);
        }
    }
    assert_eq!(st.slots[id_a.idx].mailbox.len(), 0);

    // B retrieves it exactly once.
    let got = check_receive(&mut st, Core::Core1).expect("one message");
    assert_eq!(got.payload, Payload::Unsigned(42));
    assert!(check_receive(&mut st, Core::Core1).is_none());
}

#[test]
fn retrieval_is_most_recently_sent_first() {
    let (mut st, _id_a, id_b) = booted_a_b();
    Message::new(Payload::Unsigned(1)).send(&mut st, id_b, Core::Core0).expect("first");
    Message::new(Payload::Unsigned(2)).send(&mut st, id_b, Core::Core0).expect("second");
    let first_out = check_receive(&mut st, Core::Core1).expect("message");
    let second_out = check_receive(&mut st, Core::Core1).expect("message");
    assert_eq!(first_out.payload, Payload::Unsigned(2));
    assert_eq!(second_out.payload, Payload::Unsigned(1));
    assert!(check_receive(&mut st, Core::Core1).is_none());
}

#[test]
fn send_to_dead_thread_is_refused() {
    let (mut st, _id_a, id_b) = booted_a_b();
    alkyn::thread::kill_thread(&mut st, id_b);
    let r = Message::new(Payload::Unsigned(1)).send(&mut st, id_b, Core::Core0);
    assert_eq!(r, Err(ErrorKind::InvalidConfiguration));
}

#[test]
fn blocking_receive_wakes_within_a_tick_of_send() {
    // B blocks on an empty mailbox, becomes MailPending; A sends; B is
    // Ready at once and its next receive returns the payload.
    let (mut st, _id_a, id_b) = booted_a_b();
    let first_try = receive(&mut st, Core::Core1);
    assert!(first_try.is_none());
    assert_eq!(st.slots[id_b.idx].tcb.status, ThreadStatus::MailPending);
    // The blocked receive requested a handoff; core 1 falls to its idle
    // thread.
    switch_context(&mut st, Core::Core1, 0x2000_0300);

    Message::new(Payload::Text(String::from("ping"))).send(&mut st, id_b, Core::Core0)
        .expect("send");
    assert_eq!(st.slots[id_b.idx].tcb.status, ThreadStatus::Ready);

    // The next tick re-selects B on core 1 …
    run_systick(&mut st, Core::Core1, 0);
    assert_eq!(alkyn::thread::get_next_thread_ptr(&st, Core::Core1), id_b.idx);
    switch_context(&mut st, Core::Core1, 0x2000_0400);
    // … and its retry returns the payload.
    let got = receive(&mut st, Core::Core1).expect("delivered");
    assert_eq!(got.payload, Payload::Text(String::from("ping")));
}

#[test]
fn mail_pending_thread_is_not_selected_while_blocked() {
    let (mut st, _id_a, id_b) = booted_a_b();
    receive(&mut st, Core::Core1);
    assert_eq!(st.slots[id_b.idx].tcb.status, ThreadStatus::MailPending);
    switch_context(&mut st, Core::Core1, 0x2000_0300);
    // With B blocked, core 1's only candidate is its idle thread.
    run_systick(&mut st, Core::Core1, 0);
    assert_ne!(alkyn::thread::get_next_thread_idx(&st, Core::Core1), id_b.idx);
    // No number of ticks wakes a thread that waits for mail, only a send.
    for _ in 0..5 {
        run_systick(&mut st, Core::Core1, 0);
    }
    assert_eq!(st.slots[id_b.idx].tcb.status, ThreadStatus::MailPending);
}

#[test]
fn envelope_tag_mismatch_is_reported() {
    let text = alkyn::msg::RawMessage { payload: Payload::Text(String::from("x")) };
    assert_eq!(text.expect_unsigned(), Err(ErrorKind::TypeMismatch));
    let num = alkyn::msg::RawMessage { payload: Payload::Unsigned(3) };
    assert_eq!(num.expect_unsigned(), Ok(3));
    let signed = alkyn::msg::RawMessage { payload: Payload::Signed(-4) };
    assert_eq!(signed.expect_signed(), Ok(-4));
    assert_eq!(
        alkyn::msg::RawMessage { payload: Payload::Empty }.expect_bytes(),
        Err(ErrorKind::TypeMismatch)
    );
    assert_eq!(
        alkyn::msg::RawMessage { payload: Payload::Bytes(vec![1, 2]) }.expect_bytes(),
        Ok(vec![1, 2])
    );
    assert_eq!(
        alkyn::msg::RawMessage { payload: Payload::Unsigned(1) }.expect_text(),
        Err(ErrorKind::TypeMismatch)
    );
    assert_eq!(
        alkyn::msg::RawMessage { payload: Payload::Text(String::from("ok")) }.expect_text(),
        Ok(String::from("ok"))
    );
}
