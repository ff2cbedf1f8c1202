//! A generic server process, in the style of an actor-model state machine.
//!
//! A generic server is a thread like any other; it keeps state and serves
//! requests arriving through its mailbox.  Implementors supply the three
//! handlers — call, cast and info — and the kernel-side plumbing stays the
//! same for every server.  A server should be treated as a state machine:
//! each handled message maps the current state to the next.

use crate::msg::{Message as MailMessage, Payload};
use crate::thread::{Core, ThreadId, ThreadingState};
use crate::ErrorKind;
use vstd::prelude::*;

verus! {

/// How a request arrived at a server.
#[derive(Clone, Copy, Debug, PartialEq, Eq, Structural)]
pub enum MessageType {
    /// A synchronous request; the sender expects a reply envelope.
    Call,
    /// An asynchronous request; no reply is sent.
    Cast,
    /// An out-of-band notification.
    Info,
    /// A request to shut the server down.
    Destroy,
}

/// What a handler asks the server loop to do next.
#[derive(Clone, Copy, Debug, PartialEq, Eq, Structural)]
pub enum ReplyType {
    /// Send the produced message back to the requester.
    Reply,
    /// Keep running without replying.
    NoReply,
    /// Stop the server thread.
    Stop,
}

/// A request as the server loop takes it out of the mailbox.
pub struct Message {
    /// How the request arrived.
    pub message_type: MessageType,
    /// The request payload.
    pub msg: Payload,
    /// The requesting thread, for replies.
    pub from: ThreadId,
}

/// A handler's outcome: the follow-up action, the server's next state, and
/// the message to reply with when one is owed.
pub struct Reply<S> {
    /// The follow-up action.
    pub reply_type: ReplyType,
    /// The server's next state.
    pub state: S,
    /// The reply payload, meaningful for [`ReplyType::Reply`].
    pub message: Payload,
}

/// A generic server implementation: the three request handlers and the
/// server's registered name.  Each handler maps a request and the current
/// state to a [`Reply`].
pub trait GenServer: Sized {
    /// Serves a synchronous request.
    fn handle_call<S>(request: Payload, from: ThreadId, state: S) -> Reply<S>;

    /// Serves an asynchronous request.
    fn handle_cast<S>(request: Payload, from: ThreadId, state: S) -> Reply<S>;

    /// Serves an out-of-band notification.
    fn handle_info<S>(request: Payload, from: ThreadId, state: S) -> Reply<S>;

    /// The name the server registers itself under.
    fn get_name() -> &'static str;
}

/// Acts on a handler's outcome, from the server thread running on `core`:
/// a `Reply` outcome sends the produced message back to the requester, a
/// `NoReply` outcome does nothing, and a `Stop` outcome kills the server
/// thread itself (its next scheduling decision then hands the core away).
/// Returns the server's next state, or the delivery error when a reply was
/// owed to a requester that no longer exists.
pub fn after_call<S>(
    state: &mut ThreadingState,
    core: Core,
    reply: Reply<S>,
    from: ThreadId,
) -> (r: Result<S, ErrorKind>)
    requires
        old(state).wf(),
        old(state).inited,
        core.is_physical(),
        reply.reply_type == ReplyType::Stop ==> {
            let me = old(state).id_of(old(state).cores@[core.as_index()].idx as int);
            &&& old(state).live(me)
            &&& old(state).slots@[me.idx as int].gen < u64::MAX
        },
    ensures
        final(state).wf(),
        final(state).inited,
        (match reply.reply_type {
            ReplyType::Reply => {
                &&& (old(state).live(from) <==> r is Ok)
                &&& !old(state).live(from) ==> r == Err::<S, ErrorKind>(
                    ErrorKind::InvalidConfiguration,
                ) && *final(state) == *old(state)
                &&& old(state).live(from) ==> {
                    &&& crate::thread::slots_same_except(
                        old(state).slots@,
                        final(state).slots@,
                        from.idx as int,
                    )
                    &&& final(state).slots@[from.idx as int].mailbox@ == old(
                        state,
                    ).slots@[from.idx as int].mailbox@.push(
                        (crate::msg::RawMessage { payload: reply.message }),
                    )
                    &&& final(state).slots@[from.idx as int].tcb.status == (if old(
                        state,
                    ).slots@[from.idx as int].tcb.status == crate::thread::ThreadStatus::MailPending {
                        crate::thread::ThreadStatus::Ready
                    } else {
                        old(state).slots@[from.idx as int].tcb.status
                    })
                }
            },
            ReplyType::NoReply => r is Ok && *final(state) == *old(state),
            ReplyType::Stop => {
                let me = old(state).id_of(old(state).cores@[core.as_index()].idx as int);
                &&& r is Ok
                &&& final(state).stale(me)
                &&& crate::thread::slots_same_except(
                    old(state).slots@,
                    final(state).slots@,
                    me.idx as int,
                )
            },
        }),
{
    match reply.reply_type {
        ReplyType::Reply => {
            match MailMessage::new(reply.message).send(state, from, core) {
                Ok(_) => Ok(reply.state),
                Err(e) => Err(e),
            }
        },
        ReplyType::NoReply => Ok(reply.state),
        ReplyType::Stop => {
            let ci = core.index();
            let idx = state.cores[ci].idx;
            let me = ThreadId { idx, gen: state.slots[idx].gen };
            crate::thread::kill_thread(state, me);
            Ok(reply.state)
        },
    }
}

} // verus!
