use alkyn::genserver::{after_call, GenServer, Message, MessageType, Reply, ReplyType};
use alkyn::msg::{check_receive, Payload};
use alkyn::registry::Registry;
use alkyn::systick::{run_ctxswitch, switch_context};
use alkyn::thread::{self, create_thread_with_config, Core, ThreadId, ThreadingState};
use alkyn::ErrorKind;

fn stack() -> Vec<u32> {
    vec![0u32; 64]
}

/// A server that echoes every call back to the requester and counts the
/// requests it has served.
struct Echo;

impl GenServer for Echo {
    fn handle_call<S>(request: Payload, _from: ThreadId, state: S) -> Reply<S> {
        Reply { reply_type: ReplyType::Reply, state, message: request }
    }

    fn handle_cast<S>(_request: Payload, _from: ThreadId, state: S) -> Reply<S> {
        Reply { reply_type: ReplyType::NoReply, state, message: Payload::Empty }
    }

    fn handle_info<S>(_request: Payload, _from: ThreadId, state: S) -> Reply<S> {
        Reply { reply_type: ReplyType::Stop, state, message: Payload::Empty }
    }

    fn get_name() -> &'static str {
        "echo"
    }
}

/// Boots a state with a server thread running on core 0 and a client
/// thread on core 1.
fn booted_server_client() -> (ThreadingState, ThreadId, ThreadId) {
    let mut st = ThreadingState::new();
    let mut reg = Registry::new();
    let mut server_stack = stack();
    let mut client_stack = stack();
    let server = create_thread_with_config(
        &mut st,
        &mut reg,
        Echo::get_name(),
        &mut server_stack,
        0x1000,
        4,
        false,
        Core::Core0,
        Core::Core0,
    )
    .expect("server");
    let client = create_thread_with_config(
        &mut st, &mut reg, "client", &mut client_stack, 0x2000, 2, false, Core::Core1, Core::Core1,
    )
    .expect("client");
    let mut idle0 = stack();
    let mut idle1 = stack();
    thread::init(&mut st, &mut idle0, &mut idle1, 0xE11E);
    run_ctxswitch(&mut st, Core::Core0);
    switch_context(&mut st, Core::Core0, 0x2000_0100);
    run_ctxswitch(&mut st, Core::Core1);
    switch_context(&mut st, Core::Core1, 0x2000_0200);
    (st, server, client)
}

#[test]
fn call_reply_reaches_the_requester() {
    let (mut st, _server, client) = booted_server_client();
    let request = Message {
        message_type: MessageType::Call,
        msg: Payload::Unsigned(40),
        from: client,
    };
    let reply = Echo::handle_call(request.msg, request.from, 0u32);
    assert_eq!(reply.reply_type, ReplyType::Reply);
    let next_state = after_call(&mut st, Core::Core0, reply, client).expect("reply sent");
    assert_eq!(next_state, 0u32);
    // The reply envelope now sits in the client's mailbox.
    let got = check_receive(&mut st, Core::Core1).expect("reply");
    assert_eq!(got.payload, Payload::Unsigned(40));
}

#[test]
fn cast_replies_to_nobody() {
    let (mut st, _server, client) = booted_server_client();
    let reply = Echo::handle_cast(Payload::Unsigned(1), client, 7u32);
    assert_eq!(reply.reply_type, ReplyType::NoReply);
    let next_state = after_call(&mut st, Core::Core0, reply, client).expect("no reply");
    assert_eq!(next_state, 7u32);
    assert!(check_receive(&mut st, Core::Core1).is_none());
}

#[test]
fn stop_kills_the_server_thread() {
    let (mut st, server, client) = booted_server_client();
    let reply = Echo::handle_info(Payload::Empty, client, 0u32);
    assert_eq!(reply.reply_type, ReplyType::Stop);
    after_call(&mut st, Core::Core0, reply, client).expect("stopped");
    assert!(!st.slots[server.idx].active);
    assert_eq!(st.slots[server.idx].gen, server.gen + 1);
}

#[test]
fn reply_to_a_dead_requester_reports_the_error() {
    let (mut st, _server, client) = booted_server_client();
    thread::kill_thread(&mut st, client);
    let reply = Echo::handle_call(Payload::Unsigned(5), client, 0u32);
    let r = after_call(&mut st, Core::Core0, reply, client);
    assert_eq!(r, Err(ErrorKind::InvalidConfiguration));
}
