//! Tick service and context-switch protocol.
//!
//! The periodic timer belongs to one core (a boot-time choice).  On each
//! firing that core samples the free-running counter, accumulates the elapsed
//! ticks into the shared monotonic counter (wraparound handled by comparing
//! against the previous sample), walks every `Sleeping` thread's countdown
//! exactly once, and re-runs its local scheduling decision; a doorbell then
//! asks the other core to re-run its own.  The actual handoff happens in a
//! dedicated low-priority trap so it runs only after all higher-priority work
//! on the core has drained; [`switch_context`] is that trap's decision
//! content — the stack-pointer exchange and cursor hand-over — while the
//! register save/restore around it is the target CPU's few instructions.

use crate::thread::{
    decide_cursor, run_tick, tick_tcb, Core, CoreState, ThreadingState,
};
use crate::ErrorKind;
use vstd::prelude::*;

verus! {

/// The ticks elapsed between the previous raw timer sample `prev` and the
/// fresh sample `count`, for a counter that counts down and wraps.
pub open spec fn elapsed_ticks(prev: u32, count: u32) -> u64 {
    if count > prev {
        (count + (u32::MAX - prev)) as u64
    } else {
        (prev - count) as u64
    }
}

/// Re-runs the scheduling decision for `core` and reports whether a handoff
/// is now pending, in which case the caller must raise the low-priority
/// context-switch trap.  While a previous handoff is still in flight
/// (`current != next`) no new selection is computed — this keeps a switch
/// from being re-triggered mid-flight — but the pending handoff is reported
/// again.  Before boot completes this does nothing.
pub fn run_ctxswitch(state: &mut ThreadingState, core: Core) -> (switch: bool)
    requires
        old(state).wf(),
        core.is_physical(),
    ensures
        final(state).wf(),
        final(state).slots@ == old(state).slots@,
        final(state).inited == old(state).inited,
        final(state).counter == old(state).counter,
        final(state).prev_cnt == old(state).prev_cnt,
        !old(state).inited ==> final(state).cores@ == old(state).cores@ && !switch,
        old(state).inited ==> {
            &&& final(state).cores@ == old(state).cores@.update(
                core.as_index(),
                decide_cursor(old(state).slots@, old(state).cores@[core.as_index()], core),
            )
            &&& switch == (final(state).cores@[core.as_index()].current
                != final(state).cores@[core.as_index()].next)
        },
{
    if !state.inited {
        proof {
            assert(state.cores@ =~= old(state).cores@);
        }
        return false;
    }
    let ci = core.index();
    let mut cs = state.cores[ci];
    if cs.current == cs.next {
        let sel = crate::thread::get_next_thread_idx(state, core);
        cs.idx = sel;
        cs.next = sel;
        state.cores[ci] = cs;
    } else {
        proof {
            assert(state.cores@ =~= state.cores@.update(ci as int, state.cores@[ci as int]));
        }
    }
    let cs2 = state.cores[ci];
    cs2.current != cs2.next
}

/// The trap-level core handoff, run with interrupts masked: stores the
/// outgoing thread's just-saved stack position into its control record,
/// marks the handoff complete by moving the core's `current` cursor to
/// `next`, and returns the incoming thread's saved stack position for the
/// restore that follows.  Exactly one thread context is live per core at any
/// instant: the exchange happens in this single step.
pub fn switch_context(state: &mut ThreadingState, core: Core, saved_sp: u32) -> (next_sp: u32)
    requires
        old(state).wf(),
        old(state).inited,
        core.is_physical(),
    ensures
        final(state).wf(),
        ({
            let ci = core.as_index();
            let cur = old(state).cores@[ci].current as int;
            let nxt = old(state).cores@[ci].next as int;
            &&& crate::thread::slots_same_except(old(state).slots@, final(state).slots@, cur)
            &&& final(state).slots@[cur].gen == old(state).slots@[cur].gen
            &&& final(state).slots@[cur].active == old(state).slots@[cur].active
            &&& final(state).slots@[cur].mailbox@ == old(state).slots@[cur].mailbox@
            &&& final(state).slots@[cur].tcb == (crate::thread::ThreadControlBlock {
                sp: saved_sp,
                ..old(state).slots@[cur].tcb
            })
            &&& final(state).cores@ == old(state).cores@.update(
                ci,
                (CoreState { current: old(state).cores@[ci].next, ..old(state).cores@[ci] }),
            )
            &&& next_sp == final(state).slots@[nxt].tcb.sp
        }),
        final(state).inited == old(state).inited,
        final(state).counter == old(state).counter,
        final(state).prev_cnt == old(state).prev_cnt,
{
    let ci = core.index();
    let cur = state.cores[ci].current;
    state.slots[cur].tcb.sp = saved_sp;
    state.set_next_to_curr(core);
    let nxt = state.cores[ci].current;
    state.slots[nxt].tcb.sp
}

/// One full firing of the tick service on the timer-owning core: accumulate
/// the elapsed ticks from the fresh counter sample `count` (wraparound-safe,
/// skipped before boot), run the system-wide sleep-countdown pass, and
/// re-run this core's scheduling decision.  Returns whether a handoff is now
/// pending on this core; signalling the other core to re-run its own
/// decision is the caller's doorbell to send.
pub fn run_systick(state: &mut ThreadingState, core: Core, count: u32) -> (switch: bool)
    requires
        old(state).wf(),
        core.is_physical(),
    ensures
        final(state).wf(),
        final(state).slots@.len() == old(state).slots@.len(),
        forall|j: int|
            0 <= j < old(state).slots@.len() ==> {
                &&& final(state).slots@[j].gen == old(state).slots@[j].gen
                &&& final(state).slots@[j].active == old(state).slots@[j].active
                &&& final(state).slots@[j].mailbox@ == old(state).slots@[j].mailbox@
                &&& final(state).slots@[j].tcb == tick_tcb(#[trigger] old(state).slots@[j].tcb)
            },
        final(state).inited == old(state).inited,
        old(state).inited ==> {
            &&& final(state).counter == vstd::wrapping::u64_specs::wrapping_add(
                old(state).counter,
                elapsed_ticks(old(state).prev_cnt, count),
            )
            &&& final(state).prev_cnt == count
            &&& final(state).cores@ == old(state).cores@.update(
                core.as_index(),
                decide_cursor(final(state).slots@, old(state).cores@[core.as_index()], core),
            )
            &&& switch == (final(state).cores@[core.as_index()].current
                != final(state).cores@[core.as_index()].next)
        },
        !old(state).inited ==> {
            &&& final(state).counter == old(state).counter
            &&& final(state).prev_cnt == old(state).prev_cnt
            &&& final(state).cores@ == old(state).cores@
            &&& !switch
        },
{
    if state.inited {
        let elapsed: u64 = if count > state.prev_cnt {
            count as u64 + (u32::MAX - state.prev_cnt) as u64
        } else {
            (state.prev_cnt - count) as u64
        };
        state.counter = state.counter.wrapping_add(elapsed);
        state.prev_cnt = count;
    }
    run_tick(state);
    run_ctxswitch(state, core)
}

/// The tick timer's software-side state: whether the periodic interrupt has
/// been enabled, and with what reload value.
pub struct SysTickState {
    /// Set once the periodic interrupt is running.
    pub enabled: bool,
    /// The reload value the counter was programmed with.
    pub reload: u32,
}

impl SysTickState {
    /// A timer not yet enabled.
    pub fn new() -> (r: SysTickState)
        ensures
            !r.enabled,
            r.reload == 0,
    {
        SysTickState { enabled: false, reload: 0 }
    }

    /// Claims the periodic timer with reload value `reload`.  Succeeds
    /// exactly once; a second enabling is refused with
    /// `DoubleInitialization` and changes nothing.  On success the caller
    /// programs the hardware counter accordingly.
    pub fn enable(&mut self, reload: u32) -> (r: Result<(), ErrorKind>)
        ensures
            !old(self).enabled ==> {
                &&& r == Ok::<(), ErrorKind>(())
                &&& final(self).enabled
                &&& final(self).reload == reload
            },
            old(self).enabled ==> {
                &&& r == Err::<(), ErrorKind>(ErrorKind::DoubleInitialization)
                &&& *final(self) == *old(self)
            },
    {
        if self.enabled {
            Err(ErrorKind::DoubleInitialization)
        } else {
            self.enabled = true;
            self.reload = reload;
            Ok(())
        }
    }
}

} // verus!
