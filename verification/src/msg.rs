//! Mailbox message passing.
//!
//! Every thread slot owns one unbounded mailbox.  A payload is wrapped in a
//! type-tagged envelope whose ownership moves from the sender into the
//! mailbox and from the mailbox to the receiver; at no point are two owners
//! valid at once.  Retrieval removes the most recently sent message first,
//! the discipline inherited from the underlying pop operation.

use crate::thread::{Core, ThreadId, ThreadingState, ThreadStatus};
use crate::ErrorKind;
use vstd::prelude::*;

verus! {

/// A message payload, as a tagged variant rather than a type-erased pointer.
/// The discriminant is the envelope's type tag; a receiver requesting the
/// wrong variant is a caller error, reported rather than silently dropped.
#[derive(Clone, Debug, PartialEq, Eq)]
pub enum Payload {
    /// A payload-free notification.
    Empty,
    /// An unsigned machine word.
    Unsigned(u64),
    /// A signed machine word.
    Signed(i64),
    /// An owned text payload.
    Text(String),
    /// An owned byte payload.
    Bytes(Vec<u8>),
}

/// The envelope as it sits in a mailbox: the tagged payload with ownership
/// transferred to the mailbox storage.
#[derive(Clone, Debug, PartialEq, Eq)]
pub struct RawMessage {
    /// The type-tagged payload.
    pub payload: Payload,
}

/// A message prepared for sending.
#[derive(Clone, Debug, PartialEq, Eq)]
pub struct Message {
    /// The envelope that will be moved into the target's mailbox.
    pub raw: RawMessage,
}

impl Message {
    /// Wraps a payload into a sendable message.
    pub fn new(p: Payload) -> (r: Message)
        ensures
            r.raw.payload == p,
    {
        Message { raw: RawMessage { payload: p } }
    }
}

impl Message {
    /// Delivers this message to `target`'s mailbox, from the thread running
    /// on `core`.
    ///
    /// Delivery appends the envelope to the target's mailbox and touches no
    /// other mailbox; there is no capacity bound or flow control.  A target
    /// blocked in `MailPending` is woken to `Ready`, and if the woken
    /// thread's priority exceeds the sender's, a fresh scheduling decision
    /// is taken at once so the wakeup can preempt the sender.  Sending to an
    /// identifier that no longer names a live thread (killed, stale or never
    /// issued) is refused as `InvalidConfiguration` and changes nothing.
    pub fn send(self, state: &mut ThreadingState, target: ThreadId, core: Core) -> (r: Result<
        ThreadId,
        ErrorKind,
    >)
        requires
            old(state).wf(),
            old(state).inited,
            core.is_physical(),
        ensures
            final(state).wf(),
            final(state).inited,
            final(state).counter == old(state).counter,
            final(state).prev_cnt == old(state).prev_cnt,
            !old(state).live(target) ==> {
                &&& r == Err::<ThreadId, ErrorKind>(ErrorKind::InvalidConfiguration)
                &&& *final(state) == *old(state)
            },
            old(state).live(target) ==> {
                let t = target.idx as int;
                let ci = core.as_index();
                let sender = old(state).cores@[ci].idx as int;
                let woken = old(state).slots@[t].tcb.status == ThreadStatus::MailPending;
                let preempt = woken && old(state).slots@[t].tcb.priority
                    > old(state).slots@[sender].tcb.priority;
                &&& r == Ok::<ThreadId, ErrorKind>(target)
                &&& crate::thread::slots_same_except(old(state).slots@, final(state).slots@, t)
                &&& final(state).slots@[t].gen == old(state).slots@[t].gen
                &&& final(state).slots@[t].active == old(state).slots@[t].active
                &&& final(state).slots@[t].mailbox@ == old(state).slots@[t].mailbox@.push(self.raw)
                &&& final(state).slots@[t].tcb == (crate::thread::ThreadControlBlock {
                    status: if woken {
                        ThreadStatus::Ready
                    } else {
                        old(state).slots@[t].tcb.status
                    },
                    ..old(state).slots@[t].tcb
                })
                &&& final(state).cores@ == (if preempt {
                    old(state).cores@.update(
                        ci,
                        crate::thread::decide_cursor(
                            final(state).slots@,
                            old(state).cores@[ci],
                            core,
                        ),
                    )
                } else {
                    old(state).cores@
                })
            },
    {
        let ti = target.idx;
        if !(ti < state.slots.len() && state.slots[ti].active && state.slots[ti].gen
            == target.gen) {
            return Err(ErrorKind::InvalidConfiguration);
        }
        state.slots[ti].mailbox.push(self.raw);
        let woken = state.slots[ti].tcb.status == ThreadStatus::MailPending;
        if woken {
            state.slots[ti].tcb.status = ThreadStatus::Ready;
            let ci = core.index();
            let sender = state.cores[ci].idx;
            if state.slots[ti].tcb.priority > state.slots[sender].tcb.priority {
                crate::systick::run_ctxswitch(state, core);
            }
        }
        Ok(target)
    }
}

/// Removes one message from the mailbox of the thread running on `core`,
/// without blocking: the most recently sent message, or `None` when the
/// mailbox is empty.  No other thread's mailbox can ever be observed from
/// here.
pub fn check_receive(state: &mut ThreadingState, core: Core) -> (r: Option<RawMessage>)
    requires
        old(state).wf(),
        old(state).inited,
        core.is_physical(),
    ensures
        final(state).wf(),
        final(state).inited,
        final(state).cores@ == old(state).cores@,
        final(state).counter == old(state).counter,
        final(state).prev_cnt == old(state).prev_cnt,
        ({
            let t = old(state).cores@[core.as_index()].idx as int;
            let mb = old(state).slots@[t].mailbox@;
            &&& (mb.len() == 0 ==> r is None && *final(state) == *old(state))
            &&& (mb.len() > 0 ==> {
                &&& r == Some(mb.last())
                &&& crate::thread::slots_same_except(old(state).slots@, final(state).slots@, t)
                &&& final(state).slots@[t].gen == old(state).slots@[t].gen
                &&& final(state).slots@[t].active == old(state).slots@[t].active
                &&& final(state).slots@[t].tcb == old(state).slots@[t].tcb
                &&& final(state).slots@[t].mailbox@ == mb.drop_last()
            })
        }),
{
    let ci = core.index();
    let t = state.cores[ci].idx;
    if state.slots[t].mailbox.len() == 0 {
        return None;
    }
    state.slots[t].mailbox.pop()
}

/// One iteration of the blocking receive discipline for the thread running
/// on `core`: returns the most recently sent message if one is waiting;
/// otherwise marks the caller `MailPending`, yields through a minimal
/// one-tick sleep, and returns `None` — the caller retries once it is
/// selected again.  Delivery is guaranteed once any send targets the
/// thread, with latency bounded by the tick period.
pub fn receive(state: &mut ThreadingState, core: Core) -> (r: Option<RawMessage>)
    requires
        old(state).wf(),
        old(state).inited,
        core.is_physical(),
    ensures
        final(state).wf(),
        final(state).inited,
        final(state).counter == old(state).counter,
        final(state).prev_cnt == old(state).prev_cnt,
        ({
            let ci = core.as_index();
            let t = old(state).cores@[ci].idx as int;
            let mb = old(state).slots@[t].mailbox@;
            &&& (mb.len() > 0 ==> {
                &&& r == Some(mb.last())
                &&& crate::thread::slots_same_except(old(state).slots@, final(state).slots@, t)
                &&& final(state).slots@[t].gen == old(state).slots@[t].gen
                &&& final(state).slots@[t].active == old(state).slots@[t].active
                &&& final(state).slots@[t].tcb == old(state).slots@[t].tcb
                &&& final(state).slots@[t].mailbox@ == mb.drop_last()
                &&& final(state).cores@ == old(state).cores@
            })
            &&& (mb.len() == 0 ==> {
                &&& r is None
                &&& crate::thread::slots_same_except(old(state).slots@, final(state).slots@, t)
                &&& final(state).slots@[t].gen == old(state).slots@[t].gen
                &&& final(state).slots@[t].active == old(state).slots@[t].active
                &&& final(state).slots@[t].mailbox@ == mb
                &&& final(state).slots@[t].tcb == (crate::thread::ThreadControlBlock {
                    status: ThreadStatus::MailPending,
                    sleep_ticks: 1,
                    ..old(state).slots@[t].tcb
                })
                &&& final(state).cores@ == old(state).cores@.update(
                    ci,
                    crate::thread::decide_cursor(
                        final(state).slots@,
                        old(state).cores@[ci],
                        core,
                    ),
                )
            })
        }),
{
    let m = check_receive(state, core);
    match m {
        Some(m) => Some(m),
        None => {
            let ci = core.index();
            let t = state.cores[ci].idx;
            let ghost s0 = state.slots@;
            state.slots[t].tcb.status = ThreadStatus::MailPending;
            let ghost s1 = state.slots@;
            crate::thread::sleep(state, core, 1);
            proof {
                assert forall|j: int|
                    0 <= j < s0.len() && j != t implies crate::thread::slot_unchanged(
                    s0,
                    state.slots@,
                    j,
                ) by {
                    assert(crate::thread::slot_unchanged(s1, state.slots@, j));
                    assert(crate::thread::slot_unchanged(s0, s1, j));
                }
            }
            None
        },
    }
}

/// The message round trip, composed from what [`Message::send`] and
/// [`check_receive`] guarantee of the thread table: a message sent to
/// thread `t` is retrieved by `t`'s next `check_receive` exactly once — the
/// envelope comes back as sent and `t`'s mailbox returns to its prior
/// contents — and at no point is it observable from any other thread's
/// mailbox.  `pre` is the table before the send, `mid` after it, `post`
/// after the receive; the `requires` are the mailbox clauses those two
/// contracts establish.
pub proof fn lemma_message_round_trip(
    pre: Seq<crate::thread::ThreadSlot>,
    mid: Seq<crate::thread::ThreadSlot>,
    post: Seq<crate::thread::ThreadSlot>,
    t: int,
    env: RawMessage,
    r: Option<RawMessage>,
)
    requires
        0 <= t < pre.len(),
        crate::thread::slots_same_except(pre, mid, t),
        mid[t].mailbox@ == pre[t].mailbox@.push(env),
        crate::thread::slots_same_except(mid, post, t),
        r == Some(mid[t].mailbox@.last()),
        post[t].mailbox@ == mid[t].mailbox@.drop_last(),
    ensures
        r == Some(env),
        post[t].mailbox@ == pre[t].mailbox@,
        forall|j: int| 0 <= j < pre.len() && j != t ==> post[j].mailbox@ == pre[j].mailbox@,
{
    assert(pre[t].mailbox@.push(env).drop_last() =~= pre[t].mailbox@);
    assert forall|j: int| 0 <= j < pre.len() && j != t implies post[j].mailbox@
        == pre[j].mailbox@ by {
        assert(crate::thread::slot_unchanged(pre, mid, j));
        assert(crate::thread::slot_unchanged(mid, post, j));
    }
}

impl RawMessage {
    /// Extracts an unsigned-word payload; any other tag is a type mismatch.
    pub fn expect_unsigned(self) -> (r: Result<u64, ErrorKind>)
        ensures
            self.payload matches Payload::Unsigned(v) ==> r == Ok::<u64, ErrorKind>(v),
            !(self.payload is Unsigned) ==> r == Err::<u64, ErrorKind>(ErrorKind::TypeMismatch),
    {
        match self.payload {
            Payload::Unsigned(v) => Ok(v),
            _ => Err(ErrorKind::TypeMismatch),
        }
    }

    /// Extracts a signed-word payload; any other tag is a type mismatch.
    pub fn expect_signed(self) -> (r: Result<i64, ErrorKind>)
        ensures
            self.payload matches Payload::Signed(v) ==> r == Ok::<i64, ErrorKind>(v),
            !(self.payload is Signed) ==> r == Err::<i64, ErrorKind>(ErrorKind::TypeMismatch),
    {
        match self.payload {
            Payload::Signed(v) => Ok(v),
            _ => Err(ErrorKind::TypeMismatch),
        }
    }

    /// Extracts a text payload; any other tag is a type mismatch.
    pub fn expect_text(self) -> (r: Result<String, ErrorKind>)
        ensures
            (match self.payload {
                Payload::Text(s) => r == Ok::<String, ErrorKind>(s),
                _ => r == Err::<String, ErrorKind>(ErrorKind::TypeMismatch),
            }),
    {
        match self.payload {
            Payload::Text(s) => Ok(s),
            _ => Err(ErrorKind::TypeMismatch),
        }
    }

    /// Extracts a byte payload; any other tag is a type mismatch.
    pub fn expect_bytes(self) -> (r: Result<Vec<u8>, ErrorKind>)
        ensures
            (match self.payload {
                Payload::Bytes(b) => r == Ok::<Vec<u8>, ErrorKind>(b),
                _ => r == Err::<Vec<u8>, ErrorKind>(ErrorKind::TypeMismatch),
            }),
    {
        match self.payload {
            Payload::Bytes(b) => Ok(b),
            _ => Err(ErrorKind::TypeMismatch),
        }
    }
}

} // verus!
