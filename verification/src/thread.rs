//! Thread table, lifecycle and the per-core scheduler.
//!
//! The process-wide kernel state is the single [`ThreadingState`] value: the
//! collection of thread control records, the per-core scheduling cursors, the
//! initialization flag and the monotonic tick counter.  On the real machine
//! both cores mutate it strictly inside critical sections; here every mutation
//! is a function taking `&mut ThreadingState`, so exclusive access is what the
//! type system already guarantees.

use crate::ErrorKind;
use vstd::prelude::*;

verus! {

/// Capacity of the thread table.
pub const MAX_THREADS: usize = 256;

/// Number of physical cores.
pub const CORES: usize = 2;

/// Minimum number of words a thread stack must provide.
pub const MIN_STACK_WORDS: usize = 32;

/// Words occupied by a full saved-register image.
pub const FRAME_WORDS: usize = 16;

/// A physical core, or the absence of a core constraint.
///
/// As a thread's affinity, `Any` matches every core; `Core0` and `Core1` pin
/// the thread to one core.
#[derive(Clone, Copy, Debug, PartialEq, Eq, Structural)]
pub enum Core {
    Core0,
    Core1,
    Any,
}

/// Lifecycle status of a thread.
#[derive(Clone, Copy, Debug, PartialEq, Eq, Structural)]
pub enum ThreadStatus {
    /// Eligible for selection by the scheduler.
    Ready,
    /// Waiting out a tick countdown; not eligible.
    Sleeping,
    /// Blocked on an empty mailbox; not eligible until a send wakes it.
    MailPending,
}

impl Core {
    /// The table/cursor index a physical core uses.
    pub open spec fn as_index(self) -> int {
        match self {
            Core::Core0 => 0,
            Core::Core1 => 1,
            Core::Any => CORES as int,
        }
    }

    /// True of the two physical cores, false of `Any`.
    pub open spec fn is_physical(self) -> bool {
        self != Core::Any
    }

    /// Executable twin of [`Core::as_index`].
    pub fn index(self) -> (r: usize)
        ensures
            r == self.as_index(),
    {
        match self {
            Core::Core0 => 0,
            Core::Core1 => 1,
            Core::Any => CORES,
        }
    }

    /// Converts a pattern of raw core numbers (0 or 1) to `Core` values,
    /// with a trailing `Any` so the result can serve as an affinity allow
    /// list.
    pub fn from_slice(pattern: &Vec<u8>) -> (r: Vec<Core>)
        requires
            forall|i: int| 0 <= i < pattern@.len() ==> pattern@[i] == 0 || pattern@[i] == 1,
        ensures
            r@.len() == pattern@.len() + 1,
            forall|i: int|
                0 <= i < pattern@.len() ==> r@[i] == (if pattern@[i] == 0 {
                    Core::Core0
                } else {
                    Core::Core1
                }),
            r@[pattern@.len() as int] == Core::Any,
    {
        let mut converted: Vec<Core> = Vec::new();
        let mut i: usize = 0;
        while i < pattern.len()
            invariant
                i <= pattern@.len(),
                converted@.len() == i,
                forall|k: int| 0 <= k < pattern@.len() ==> pattern@[k] == 0 || pattern@[k] == 1,
                forall|k: int|
                    0 <= k < i ==> converted@[k] == (if pattern@[k] == 0 {
                        Core::Core0
                    } else {
                        Core::Core1
                    }),
            decreases pattern@.len() - i,
        {
            let c: Core = if pattern[i] == 0 {
                Core::Core0
            } else {
                Core::Core1
            };
            converted.push(c);
            i = i + 1;
        }
        converted.push(Core::Any);
        converted
    }

    /// The affinity values a thread may carry to be schedulable on
    /// `current_core`: that core itself, and `Any`.
    pub fn get_allowed(current_core: u8) -> (r: Vec<Core>)
        requires
            current_core == 0 || current_core == 1,
        ensures
            r@.len() == 2,
            r@[0] == (if current_core == 0 {
                Core::Core0
            } else {
                Core::Core1
            }),
            r@[1] == Core::Any,
    {
        let mut pattern: Vec<u8> = Vec::new();
        pattern.push(current_core);
        Core::from_slice(&pattern)
    }
}

/// A stable, generation-checked thread identifier: the table slot the thread
/// occupies plus the slot's generation at creation time.  When a thread is
/// killed its slot's generation advances, so an identifier kept past the
/// thread's death is detectable as stale rather than silently naming whatever
/// thread reuses the slot.
#[derive(Clone, Copy, Debug, PartialEq, Eq, Structural)]
pub struct ThreadId {
    /// Index into the thread table.
    pub idx: usize,
    /// Generation of the slot when this identifier was issued.
    pub gen: u64,
}

/// A single thread's control record.
///
/// The stack region backing the thread is supplied and exclusively owned by
/// the caller for the whole thread lifetime; the kernel records only `sp`,
/// the position within that stack where the suspended register image lives.
/// `sp` is meaningful only while the thread is not running.
#[derive(Clone, Copy, Debug, PartialEq, Eq, Structural)]
pub struct ThreadControlBlock {
    /// Saved stack position of the suspended register context.
    pub sp: u32,
    /// Advisory privilege flag, checked only at thread creation time.
    pub privileged: bool,
    /// Scheduling priority; a higher value wins.
    pub priority: u8,
    /// Lifecycle status.
    pub status: ThreadStatus,
    /// Remaining sleep countdown, in ticks.
    pub sleep_ticks: u32,
    /// Home-core marker.
    pub core: Core,
    /// Core-affinity constraint.
    pub affinity: Core,
}

/// Per-core scheduling cursor.
///
/// A core only ever triggers its own handoff: `current` is the slot of the
/// thread whose context is live on the core, `next` the slot chosen for the
/// upcoming handoff, and `idx` the transient selection made during the last
/// scheduling decision.  A new selection is computed only while `current ==
/// next`, i.e. while no handoff is in flight.
#[derive(Clone, Copy, Debug, PartialEq, Eq, Structural)]
pub struct CoreState {
    /// Slot of the thread currently running on this core.
    pub current: usize,
    /// Slot the core will switch to at the next handoff.
    pub next: usize,
    /// Slot picked by the most recent scheduling decision.
    pub idx: usize,
}

/// One slot of the thread table: a generation counter, an occupancy flag, the
/// control record and the slot's mailbox.  A freed slot keeps its (advanced)
/// generation so stale identifiers remain detectable.
pub struct ThreadSlot {
    /// Generation counter; advanced each time the slot's thread is killed.
    pub gen: u64,
    /// Whether the slot currently holds a live thread.
    pub active: bool,
    /// The thread's control record; meaningful only while `active`.
    pub tcb: ThreadControlBlock,
    /// The thread's mailbox, most recent message last.
    pub mailbox: Vec<crate::msg::RawMessage>,
}

/// The process-wide kernel state: thread table, per-core cursors,
/// initialization flag and tick accounting.  There is one instance for the
/// whole program, created before boot and mutated for its entire lifetime.
pub struct ThreadingState {
    /// Per-core scheduling cursors; one entry per physical core.
    pub cores: Vec<CoreState>,
    /// Set once boot has inserted the two idle threads.
    pub inited: bool,
    /// The thread table.
    pub slots: Vec<ThreadSlot>,
    /// Monotonic accumulated tick counter.
    pub counter: u64,
    /// Previous raw timer sample, for wraparound handling.
    pub prev_cnt: u32,
}

impl ThreadingState {
    /// Basic well-formedness: one cursor per core, the table within capacity,
    /// and, once booted, at least the two idle slots present and every cursor
    /// pointing into the table.
    pub open spec fn wf(self) -> bool {
        &&& self.cores@.len() == CORES
        &&& self.slots@.len() <= MAX_THREADS
        &&& self.inited ==> {
            &&& self.slots@.len() >= CORES
            &&& self.cursor_ok(0)
            &&& self.cursor_ok(1)
        }
    }

    /// The cursor of core `c` points into the thread table.
    pub open spec fn cursor_ok(self, c: int) -> bool {
        &&& self.cores@[c].current < self.slots@.len()
        &&& self.cores@[c].next < self.slots@.len()
        &&& self.cores@[c].idx < self.slots@.len()
    }

    /// The identifier currently naming slot `i`.
    pub open spec fn id_of(self, i: int) -> ThreadId {
        ThreadId { idx: i as usize, gen: self.slots@[i].gen }
    }

    /// `id` names a live thread: its slot is occupied and the generation
    /// matches.
    pub open spec fn live(self, id: ThreadId) -> bool {
        &&& id.idx < self.slots@.len()
        &&& self.slots@[id.idx as int].active
        &&& self.slots@[id.idx as int].gen == id.gen
    }

    /// `id` once named a thread in this table but can never do so again: its
    /// slot has moved past the identifier's generation.
    pub open spec fn stale(self, id: ThreadId) -> bool {
        &&& id.idx < self.slots@.len()
        &&& self.slots@[id.idx as int].gen > id.gen
    }

    /// An empty, not-yet-booted kernel state with both core cursors zeroed.
    pub fn new() -> (r: ThreadingState)
        ensures
            r.wf(),
            !r.inited,
            r.slots@.len() == 0,
            r.counter == 0,
            r.prev_cnt == 0,
            r.cores@.len() == CORES,
            forall|c: int|
                0 <= c < CORES ==> #[trigger] r.cores@[c] == (CoreState {
                    current: 0,
                    next: 0,
                    idx: 0,
                }),
    {
        let mut cores: Vec<CoreState> = Vec::new();
        cores.push(CoreState { current: 0, next: 0, idx: 0 });
        cores.push(CoreState { current: 0, next: 0, idx: 0 });
        ThreadingState { cores, inited: false, slots: Vec::new(), counter: 0, prev_cnt: 0 }
    }

    /// Marks the in-flight handoff on `core` as completed: the core's
    /// `current` cursor catches up with `next`.
    pub fn set_next_to_curr(&mut self, core: Core)
        requires
            old(self).wf(),
            core.is_physical(),
        ensures
            final(self).wf(),
            final(self).cores@ == old(self).cores@.update(
                core.as_index(),
                (CoreState {
                    current: old(self).cores@[core.as_index()].next,
                    ..old(self).cores@[core.as_index()]
                }),
            ),
            final(self).slots@ == old(self).slots@,
            final(self).inited == old(self).inited,
            final(self).counter == old(self).counter,
            final(self).prev_cnt == old(self).prev_cnt,
    {
        let ci = core.index();
        let mut cs = self.cores[ci];
        cs.current = cs.next;
        self.cores[ci] = cs;
    }
}

/// Slot `j` holds the same thread, generation, record and mailbox in `a` as
/// in `b`.
pub open spec fn slot_unchanged(a: Seq<ThreadSlot>, b: Seq<ThreadSlot>, j: int) -> bool {
    &&& a[j].gen == b[j].gen
    &&& a[j].active == b[j].active
    &&& a[j].tcb == b[j].tcb
    &&& a[j].mailbox@ == b[j].mailbox@
}

/// The tables `a` and `b` agree everywhere except possibly at slot `i`.
pub open spec fn slots_same_except(a: Seq<ThreadSlot>, b: Seq<ThreadSlot>, i: int) -> bool {
    &&& a.len() == b.len()
    &&& forall|j: int| 0 <= j < a.len() && j != i ==> slot_unchanged(a, b, j)
}

/// The initial saved-register image synthesized at the top of a fresh
/// thread's stack, lowest stack position first: the callee-saved registers
/// R8-R11 and R4-R7, the caller-saved image the hardware expects on exception
/// return (R0-R3, R12, the thread-mode return link), the entry point as the
/// resumed program counter, and an xPSR word with the thumb-execution bit
/// set.
pub open spec fn initial_frame(entry: u32) -> Seq<u32> {
    seq![
        0x88888888u32,
        0x99999999u32,
        0xAAAAAAAAu32,
        0xBBBBBBBBu32,
        0x44444444u32,
        0x55555555u32,
        0x66666666u32,
        0x77777777u32,
        0x00000000u32,
        0x11111111u32,
        0x22222222u32,
        0x33333333u32,
        0xCCCCCCCCu32,
        0xFFFFFFFDu32,
        entry,
        0x01000000u32,
    ]
}

/// Affinity `aff` permits running on physical core `core`; `Any` matches
/// every core.
pub open spec fn affinity_matches(aff: Core, core: Core) -> bool {
    aff == core || aff == Core::Any
}

/// Slot `i` is a selection candidate for `core`: occupied, `Ready`, and
/// affinity-compatible.
pub open spec fn is_candidate(slots: Seq<ThreadSlot>, core: Core, i: int) -> bool {
    &&& 0 <= i < slots.len()
    &&& slots[i].active
    &&& slots[i].tcb.status == ThreadStatus::Ready
    &&& affinity_matches(slots[i].tcb.affinity, core)
}

/// The best candidate among slots `0..n`: maximum priority, ties broken by
/// lowest slot index (the earliest-created thread of equal priority wins).
/// `None` when `0..n` holds no candidate.
pub open spec fn best_candidate_upto(slots: Seq<ThreadSlot>, core: Core, n: int) -> Option<int>
    decreases n,
{
    if n <= 0 {
        None
    } else {
        let prev = best_candidate_upto(slots, core, n - 1);
        if is_candidate(slots, core, n - 1) {
            match prev {
                Option::None => Some(n - 1),
                Option::Some(b) => if slots[n - 1].tcb.priority > slots[b].tcb.priority {
                    Some(n - 1)
                } else {
                    Some(b)
                },
            }
        } else {
            prev
        }
    }
}

/// The scheduler's choice for `core`: the best candidate over the whole
/// table, or the core's own idle slot when no candidate exists.
pub open spec fn selected_idx(slots: Seq<ThreadSlot>, core: Core) -> int {
    match best_candidate_upto(slots, core, slots.len() as int) {
        Option::Some(b) => b,
        Option::None => core.as_index(),
    }
}

/// What [`best_candidate_upto`] returns is a candidate of maximal priority
/// and, among candidates of that priority, of least index; and it returns
/// `None` only when no candidate exists in the prefix.
pub proof fn lemma_best_candidate_upto(slots: Seq<ThreadSlot>, core: Core, n: int)
    requires
        0 <= n <= slots.len(),
    ensures
        (match best_candidate_upto(slots, core, n) {
            Option::Some(b) => {
                &&& is_candidate(slots, core, b)
                &&& b < n
                &&& forall|j: int|
                    0 <= j < n && #[trigger] is_candidate(slots, core, j)
                        ==> slots[b].tcb.priority >= slots[j].tcb.priority
                &&& forall|j: int|
                    0 <= j < n && #[trigger] is_candidate(slots, core, j) && slots[j].tcb.priority
                        == slots[b].tcb.priority ==> b <= j
            },
            Option::None => forall|j: int| 0 <= j < n ==> !#[trigger] is_candidate(slots, core, j),
        }),
    decreases n,
{
    if n > 0 {
        lemma_best_candidate_upto(slots, core, n - 1);
    }
}

/// Selects the next thread to run on `core`: among the `Ready`,
/// affinity-compatible threads the one of maximum priority, ties broken by
/// lowest table index; the core's own idle slot if no candidate exists.
pub fn get_next_thread_idx(state: &ThreadingState, core: Core) -> (r: usize)
    requires
        state.wf(),
        state.inited,
        core.is_physical(),
    ensures
        r == selected_idx(state.slots@, core),
        r < state.slots@.len(),
{
    let n = state.slots.len();
    let mut found: bool = false;
    let mut best: usize = 0;
    let mut i: usize = 0;
    while i < n
        invariant
            n == state.slots@.len(),
            i <= n,
            found ==> best < i,
            (if found {
                best_candidate_upto(state.slots@, core, i as int) == Some(best as int)
            } else {
                best_candidate_upto(state.slots@, core, i as int) is None
            }),
        decreases n - i,
    {
        let slot = &state.slots[i];
        let cand = slot.active && slot.tcb.status == ThreadStatus::Ready && (slot.tcb.affinity
            == core || slot.tcb.affinity == Core::Any);
        if cand {
            if !found {
                found = true;
                best = i;
            } else if state.slots[i].tcb.priority > state.slots[best].tcb.priority {
                best = i;
            }
        }
        i = i + 1;
    }
    if found {
        best
    } else {
        proof {
            lemma_best_candidate_upto(state.slots@, core, state.slots@.len() as int);
        }
        core.index()
    }
}

/// The scheduler's choice for `core` as a generation-checked identifier.
pub fn get_next_thread_id(state: &ThreadingState, core: Core) -> (r: ThreadId)
    requires
        state.wf(),
        state.inited,
        core.is_physical(),
    ensures
        r == state.id_of(selected_idx(state.slots@, core)),
        state.live(r) || !is_candidate(state.slots@, core, r.idx as int),
{
    let i = get_next_thread_idx(state, core);
    proof {
        lemma_best_candidate_upto(state.slots@, core, state.slots@.len() as int);
    }
    ThreadId { idx: i, gen: state.slots[i].gen }
}

/// Among `Ready`, affinity-compatible threads the scheduler never selects one
/// over which a strictly higher-priority candidate exists: if `i` and `j` are
/// both candidates for `core` and `i`'s priority is strictly greater, the
/// selection is not `j`, and the selected slot's priority is at least `i`'s.
pub proof fn lemma_priority_selection(s: ThreadingState, core: Core, i: int, j: int)
    requires
        s.wf(),
        core.is_physical(),
        is_candidate(s.slots@, core, i),
        is_candidate(s.slots@, core, j),
        s.slots@[i].tcb.priority > s.slots@[j].tcb.priority,
    ensures
        selected_idx(s.slots@, core) != j,
        is_candidate(s.slots@, core, selected_idx(s.slots@, core)),
        s.slots@[selected_idx(s.slots@, core)].tcb.priority >= s.slots@[i].tcb.priority,
{
    lemma_best_candidate_upto(s.slots@, core, s.slots@.len() as int);
}

/// Synthesizes a fresh thread's control record: writes the initial
/// saved-register image into the top [`FRAME_WORDS`] words of the
/// caller-provided stack, encoding `entry` as the resumed program counter,
/// and records the stack position of that image as the thread's saved stack
/// pointer.  Fails with `InvalidConfiguration` when the stack cannot hold the
/// minimum frame.
pub fn create_tcb(
    stack: &mut Vec<u32>,
    entry: u32,
    priority: u8,
    privileged: bool,
    affinity: Core,
) -> (r: Result<ThreadControlBlock, ErrorKind>)
    requires
        old(stack)@.len() <= 0xFFFF_FFFF,
    ensures
        final(stack)@.len() == old(stack)@.len(),
        old(stack)@.len() < MIN_STACK_WORDS ==> {
            &&& r == Err::<ThreadControlBlock, ErrorKind>(ErrorKind::InvalidConfiguration)
            &&& final(stack)@ == old(stack)@
        },
        old(stack)@.len() >= MIN_STACK_WORDS ==> {
            let top = old(stack)@.len() - FRAME_WORDS;
            &&& final(stack)@.subrange(0, top as int) == old(stack)@.subrange(0, top as int)
            &&& final(stack)@.subrange(top as int, old(stack)@.len() as int) == initial_frame(
                entry,
            )
            &&& r == Ok::<ThreadControlBlock, ErrorKind>(
                ThreadControlBlock {
                    sp: top as u32,
                    privileged,
                    priority,
                    status: ThreadStatus::Ready,
                    sleep_ticks: 0,
                    core: Core::Any,
                    affinity,
                },
            )
        },
{
    if stack.len() < MIN_STACK_WORDS {
        return Err(ErrorKind::InvalidConfiguration);
    }
    let idx = stack.len() - 1;
    stack[idx] = 0x01000000;  // xPSR: thumb-execution state
    stack[idx - 1] = entry;  // resumed program counter
    stack[idx - 2] = 0xFFFFFFFD;  // exception-return link: thread mode, process stack
    stack[idx - 3] = 0xCCCCCCCC;  // R12
    stack[idx - 4] = 0x33333333;  // R3
    stack[idx - 5] = 0x22222222;  // R2
    stack[idx - 6] = 0x11111111;  // R1
    stack[idx - 7] = 0x00000000;  // R0
    stack[idx - 8] = 0x77777777;  // R7
    stack[idx - 9] = 0x66666666;  // R6
    stack[idx - 10] = 0x55555555;  // R5
    stack[idx - 11] = 0x44444444;  // R4
    stack[idx - 12] = 0xBBBBBBBB;  // R11
    stack[idx - 13] = 0xAAAAAAAA;  // R10
    stack[idx - 14] = 0x99999999;  // R9
    stack[idx - 15] = 0x88888888;  // R8
    let top = stack.len() - FRAME_WORDS;
    proof {
        assert(stack@.subrange(top as int, old(stack)@.len() as int) =~= initial_frame(entry));
        assert(stack@.subrange(0, top as int) =~= old(stack)@.subrange(0, top as int));
    }
    Ok(
        ThreadControlBlock {
            sp: top as u32,
            privileged,
            priority,
            status: ThreadStatus::Ready,
            sleep_ticks: 0,
            core: Core::Any,
            affinity,
        },
    )
}

/// The first unoccupied slot at or after `k`, or the table length when every
/// slot from `k` on is occupied.
pub open spec fn first_free_from(slots: Seq<ThreadSlot>, k: int) -> int
    decreases slots.len() - k,
    when 0 <= k <= slots.len()
{
    if k >= slots.len() {
        slots.len() as int
    } else if !slots[k].active {
        k
    } else {
        first_free_from(slots, k + 1)
    }
}

/// The first unoccupied slot of the table, or its length when full.
pub open spec fn first_free(slots: Seq<ThreadSlot>) -> int {
    first_free_from(slots, 0)
}

/// The table can take one more thread: a freed slot exists, or there is
/// still room to grow within capacity.
pub open spec fn has_free_slot(slots: Seq<ThreadSlot>) -> bool {
    first_free(slots) < slots.len() || slots.len() < MAX_THREADS
}

/// [`first_free_from`] lands on the first unoccupied slot at or after `k`:
/// everything before it (from `k`) is occupied, and the result is either an
/// unoccupied in-range slot or the table length.
pub proof fn lemma_first_free_from(slots: Seq<ThreadSlot>, k: int)
    requires
        0 <= k <= slots.len(),
    ensures
        k <= first_free_from(slots, k) <= slots.len(),
        first_free_from(slots, k) < slots.len() ==> !slots[first_free_from(slots, k)].active,
        forall|j: int| k <= j < first_free_from(slots, k) ==> slots[j].active,
    decreases slots.len() - k,
{
    if k < slots.len() && slots[k].active {
        lemma_first_free_from(slots, k + 1);
    }
}

/// Pins [`first_free_from`] down: when every slot in `k..i` is occupied and
/// slot `i` is free (or the table ends at `i`), the first free slot from `k`
/// is exactly `i`.
pub proof fn lemma_first_free_from_at(slots: Seq<ThreadSlot>, k: int, i: int)
    requires
        0 <= k <= i <= slots.len(),
        forall|j: int| k <= j < i ==> slots[j].active,
        i < slots.len() ==> !slots[i].active,
    ensures
        first_free_from(slots, k) == i,
    decreases i - k,
{
    if k < i {
        lemma_first_free_from_at(slots, k + 1, i);
    }
}

/// `tcb` was installed at slot `i` of `b`, `a` being the table before: the
/// slot is live with an empty mailbox, a reused slot keeps its generation
/// while a fresh slot starts at generation zero, and every other slot is
/// untouched.
pub open spec fn inserted_at(a: Seq<ThreadSlot>, b: Seq<ThreadSlot>, i: int, tcb: ThreadControlBlock) -> bool {
    &&& b[i].active
    &&& b[i].tcb == tcb
    &&& b[i].mailbox@ == Seq::<crate::msg::RawMessage>::empty()
    &&& if i < a.len() {
        &&& slots_same_except(a, b, i)
        &&& b[i].gen == a[i].gen
    } else {
        &&& i == a.len()
        &&& b.len() == a.len() + 1
        &&& b[i].gen == 0
        &&& forall|j: int| 0 <= j < a.len() ==> slot_unchanged(a, b, j)
    }
}

/// Installs a freshly created control record in the first free slot of the
/// table, growing the table if no freed slot exists, and returns the new
/// thread's generation-checked identifier.
fn insert_tcb(state: &mut ThreadingState, tcb: ThreadControlBlock) -> (id: ThreadId)
    requires
        old(state).wf(),
        has_free_slot(old(state).slots@),
    ensures
        final(state).wf(),
        id.idx as int == first_free(old(state).slots@),
        id.gen == final(state).slots@[id.idx as int].gen,
        final(state).live(id),
        inserted_at(old(state).slots@, final(state).slots@, id.idx as int, tcb),
        final(state).cores@ == old(state).cores@,
        final(state).inited == old(state).inited,
        final(state).counter == old(state).counter,
        final(state).prev_cnt == old(state).prev_cnt,
{
    let n = state.slots.len();
    let mut i: usize = 0;
    while i < n
        invariant
            *state == *old(state),
            old(state).wf(),
            n == state.slots@.len(),
            i <= n,
            forall|j: int| 0 <= j < i ==> state.slots@[j].active,
        decreases n - i,
    {
        if !state.slots[i].active {
            proof {
                lemma_first_free_from_at(state.slots@, 0, i as int);
            }
            let slot_gen = state.slots[i].gen;
            state.slots[i] = ThreadSlot { gen: slot_gen, active: true, tcb, mailbox: Vec::new() };
            return ThreadId { idx: i, gen: slot_gen };
        }
        i = i + 1;
    }
    proof {
        lemma_first_free_from_at(state.slots@, 0, n as int);
    }
    state.slots.push(ThreadSlot { gen: 0, active: true, tcb, mailbox: Vec::new() });
    ThreadId { idx: n, gen: 0 }
}

/// The table still has room to take one more thread.
pub fn table_has_room(state: &ThreadingState) -> (r: bool)
    ensures
        r == has_free_slot(state.slots@),
{
    let n = state.slots.len();
    if n < MAX_THREADS {
        return true;
    }
    let mut i: usize = 0;
    while i < n
        invariant
            n == state.slots@.len(),
            i <= n,
            forall|j: int| 0 <= j < i ==> state.slots@[j].active,
        decreases n - i,
    {
        if !state.slots[i].active {
            proof {
                lemma_first_free_from_at(state.slots@, 0, i as int);
            }
            return true;
        }
        i = i + 1;
    }
    proof {
        lemma_first_free_from_at(state.slots@, 0, n as int);
    }
    false
}

/// The creating thread on `core` may spawn: during the boot window any
/// caller may, afterwards only a privileged thread.
pub open spec fn creation_allowed(s: ThreadingState, core: Core) -> bool {
    !s.inited || s.slots@[s.cores@[core.as_index()].idx as int].tcb.privileged
}

/// Creates a thread with full configuration, from the thread running on
/// `core` (during the boot window, from the boot code).
///
/// Validates in order: the stack must hold at least the minimum frame
/// (`InvalidConfiguration`), the table must have a free slot
/// (`ResourceExhausted`), and after boot the creating thread must be
/// privileged (`PermissionDenied`).  On success the initial register image is
/// written at the top of the caller-provided stack, the record is installed
/// in the first free slot, the name is registered for lookup, and the new
/// generation-checked identifier is returned.
pub fn create_thread_with_config(
    state: &mut ThreadingState,
    reg: &mut crate::registry::Registry,
    name: &str,
    stack: &mut Vec<u32>,
    entry: u32,
    priority: u8,
    privileged: bool,
    affinity: Core,
    core: Core,
) -> (r: Result<ThreadId, ErrorKind>)
    requires
        old(state).wf(),
        old(reg).wf(),
        core.is_physical(),
        old(stack)@.len() <= 0xFFFF_FFFF,
    ensures
        final(state).wf(),
        final(reg).wf(),
        final(state).inited == old(state).inited,
        final(state).cores@ == old(state).cores@,
        final(state).counter == old(state).counter,
        final(state).prev_cnt == old(state).prev_cnt,
        final(stack)@.len() == old(stack)@.len(),
        old(stack)@.len() < MIN_STACK_WORDS ==> {
            &&& r == Err::<ThreadId, ErrorKind>(ErrorKind::InvalidConfiguration)
            &&& *final(state) == *old(state)
            &&& *final(reg) == *old(reg)
            &&& final(stack)@ == old(stack)@
        },
        old(stack)@.len() >= MIN_STACK_WORDS && !has_free_slot(old(state).slots@) ==> {
            &&& r == Err::<ThreadId, ErrorKind>(ErrorKind::ResourceExhausted)
            &&& *final(state) == *old(state)
            &&& *final(reg) == *old(reg)
            &&& final(stack)@ == old(stack)@
        },
        old(stack)@.len() >= MIN_STACK_WORDS && has_free_slot(old(state).slots@)
            && !creation_allowed(*old(state), core) ==> {
            &&& r == Err::<ThreadId, ErrorKind>(ErrorKind::PermissionDenied)
            &&& *final(state) == *old(state)
            &&& *final(reg) == *old(reg)
            &&& final(stack)@ == old(stack)@
        },
        old(stack)@.len() >= MIN_STACK_WORDS && has_free_slot(old(state).slots@)
            && creation_allowed(*old(state), core) ==> {
            let top = old(stack)@.len() - FRAME_WORDS;
            &&& r matches Ok(id)
            &&& (r matches Ok(id) ==> {
                &&& id.idx as int == first_free(old(state).slots@)
                &&& final(state).live(id)
                &&& inserted_at(
                    old(state).slots@,
                    final(state).slots@,
                    id.idx as int,
                    ThreadControlBlock {
                        sp: top as u32,
                        privileged,
                        priority,
                        status: ThreadStatus::Ready,
                        sleep_ticks: 0,
                        core: Core::Any,
                        affinity,
                    },
                )
                &&& crate::registry::spec_lookup(final(reg).entries@, name@) == Some(id)
            })
            &&& final(stack)@.subrange(0, top as int) == old(stack)@.subrange(0, top as int)
            &&& final(stack)@.subrange(top as int, old(stack)@.len() as int) == initial_frame(
                entry,
            )
        },
{
    if stack.len() < MIN_STACK_WORDS {
        return Err(ErrorKind::InvalidConfiguration);
    }
    if !table_has_room(state) {
        return Err(ErrorKind::ResourceExhausted);
    }
    if state.inited {
        let ci = core.index();
        let cur_idx = state.cores[ci].idx;
        if !state.slots[cur_idx].tcb.privileged {
            return Err(ErrorKind::PermissionDenied);
        }
    }
    match create_tcb(stack, entry, priority, privileged, affinity) {
        Ok(tcb) => {
            let id = insert_tcb(state, tcb);
            crate::registry::set_registry_for_idx(reg, id, name);
            Ok(id)
        },
        Err(e) => Err(e),
    }
}

/// Creates a thread with the default configuration: priority 1, no
/// privileges, no core affinity.  Callable at any time the caller is allowed
/// to spawn; see [`create_thread_with_config`] for the validation order.
pub fn create_thread(
    state: &mut ThreadingState,
    reg: &mut crate::registry::Registry,
    name: &str,
    stack: &mut Vec<u32>,
    entry: u32,
    core: Core,
) -> (r: Result<ThreadId, ErrorKind>)
    requires
        old(state).wf(),
        old(reg).wf(),
        core.is_physical(),
        old(stack)@.len() <= 0xFFFF_FFFF,
    ensures
        final(state).wf(),
        final(reg).wf(),
        final(state).inited == old(state).inited,
        final(state).cores@ == old(state).cores@,
        final(state).counter == old(state).counter,
        final(state).prev_cnt == old(state).prev_cnt,
        final(stack)@.len() == old(stack)@.len(),
        old(stack)@.len() < MIN_STACK_WORDS ==> r == Err::<ThreadId, ErrorKind>(
            ErrorKind::InvalidConfiguration,
        ),
        old(stack)@.len() >= MIN_STACK_WORDS && !has_free_slot(old(state).slots@) ==> r == Err::<
            ThreadId,
            ErrorKind,
        >(ErrorKind::ResourceExhausted),
        old(stack)@.len() >= MIN_STACK_WORDS && has_free_slot(old(state).slots@)
            && !creation_allowed(*old(state), core) ==> r == Err::<ThreadId, ErrorKind>(
            ErrorKind::PermissionDenied,
        ),
        old(stack)@.len() >= MIN_STACK_WORDS && has_free_slot(old(state).slots@)
            && creation_allowed(*old(state), core) ==> {
            let top = old(stack)@.len() - FRAME_WORDS;
            &&& r matches Ok(id)
            &&& (r matches Ok(id) ==> {
                &&& id.idx as int == first_free(old(state).slots@)
                &&& final(state).live(id)
                &&& inserted_at(
                    old(state).slots@,
                    final(state).slots@,
                    id.idx as int,
                    ThreadControlBlock {
                        sp: top as u32,
                        privileged: false,
                        priority: 1,
                        status: ThreadStatus::Ready,
                        sleep_ticks: 0,
                        core: Core::Any,
                        affinity: Core::Any,
                    },
                )
                &&& crate::registry::spec_lookup(final(reg).entries@, name@) == Some(id)
            })
        },
{
    create_thread_with_config(state, reg, name, stack, entry, 0x01, false, Core::Any, core)
}

/// Removes the thread named by `id` from the table, unconditionally and
/// immediately: no cooperative shutdown handshake.  The slot's generation
/// advances, so `id` is stale from here on; pending mailbox messages are
/// dropped.  If the thread holds a lock or sits mid-critical-section this
/// can wedge the system — a documented hazard, not mitigated here.
pub fn kill_thread(state: &mut ThreadingState, id: ThreadId)
    requires
        old(state).wf(),
        old(state).live(id),
        old(state).slots@[id.idx as int].gen < u64::MAX,
    ensures
        final(state).wf(),
        final(state).stale(id),
        !final(state).live(id),
        slots_same_except(old(state).slots@, final(state).slots@, id.idx as int),
        final(state).slots@.len() == old(state).slots@.len(),
        final(state).slots@[id.idx as int].gen == old(state).slots@[id.idx as int].gen + 1,
        !final(state).slots@[id.idx as int].active,
        final(state).slots@[id.idx as int].mailbox@ == Seq::<crate::msg::RawMessage>::empty(),
        final(state).cores@ == old(state).cores@,
        final(state).inited == old(state).inited,
        final(state).counter == old(state).counter,
        final(state).prev_cnt == old(state).prev_cnt,
        forall|t: ThreadId| old(state).stale(t) ==> final(state).stale(t),
        forall|t: ThreadId|
            old(state).live(t) && t.idx != id.idx ==> final(state).live(t),
{
    let i = id.idx;
    let g = state.slots[i].gen;
    state.slots[i].active = false;
    state.slots[i].gen = g + 1;
    state.slots[i].mailbox.clear();
}

/// Creates one idle thread pinned to `core`: lowest priority, always
/// `Ready`, its body an endless wait-for-event loop at `entry`.  Guarantees
/// the core always has a runnable candidate.
fn create_idle_thr(
    state: &mut ThreadingState,
    stack: &mut Vec<u32>,
    entry: u32,
    core: Core,
) -> (id: ThreadId)
    requires
        old(state).wf(),
        old(state).slots@.len() < MAX_THREADS,
        core.is_physical(),
        MIN_STACK_WORDS <= old(stack)@.len() <= 0xFFFF_FFFF,
    ensures
        final(state).wf(),
        id.idx as int == first_free(old(state).slots@),
        final(state).live(id),
        inserted_at(
            old(state).slots@,
            final(state).slots@,
            id.idx as int,
            ThreadControlBlock {
                sp: (old(stack)@.len() - FRAME_WORDS) as u32,
                privileged: false,
                priority: 0,
                status: ThreadStatus::Ready,
                sleep_ticks: 0,
                core: Core::Any,
                affinity: core,
            },
        ),
        final(state).cores@ == old(state).cores@,
        final(state).inited == old(state).inited,
        final(state).counter == old(state).counter,
        final(state).prev_cnt == old(state).prev_cnt,
{
    match create_tcb(stack, entry, 0x00, false, core) {
        Ok(tcb) => insert_tcb(state, tcb),
        Err(_) => ThreadId { idx: 0, gen: 0 },
    }
}

/// Boots the threading system: inserts the two idle threads, one pinned to
/// each core at the lowest priority, points every core's cursor at its own
/// idle slot and marks the state initialized.  Threads created during the
/// boot window — before this runs — are kept and become schedulable with
/// the first tick.  Must run exactly once, before the tick service starts;
/// enabling the periodic timer and entering the scheduler loop are the
/// surrounding firmware's part.  Returns the two idle threads'
/// identifiers, core 0's first.
pub fn init(
    state: &mut ThreadingState,
    idle_stack0: &mut Vec<u32>,
    idle_stack1: &mut Vec<u32>,
    idle_entry: u32,
) -> (ids: (ThreadId, ThreadId))
    requires
        old(state).wf(),
        !old(state).inited,
        old(state).slots@.len() + 2 <= MAX_THREADS,
        MIN_STACK_WORDS <= old(idle_stack0)@.len() <= 0xFFFF_FFFF,
        MIN_STACK_WORDS <= old(idle_stack1)@.len() <= 0xFFFF_FFFF,
    ensures
        final(state).wf(),
        final(state).inited,
        final(state).counter == old(state).counter,
        final(state).prev_cnt == old(state).prev_cnt,
        final(state).live(ids.0),
        final(state).live(ids.1),
        ids.0.idx != ids.1.idx,
        old(state).slots@.len() <= final(state).slots@.len() <= old(state).slots@.len() + 2,
        forall|j: int|
            0 <= j < old(state).slots@.len() && j != ids.0.idx as int && j != ids.1.idx as int
                ==> slot_unchanged(old(state).slots@, final(state).slots@, j),
        final(state).slots@[ids.0.idx as int].tcb == (ThreadControlBlock {
            sp: (old(idle_stack0)@.len() - FRAME_WORDS) as u32,
            privileged: false,
            priority: 0,
            status: ThreadStatus::Ready,
            sleep_ticks: 0,
            core: Core::Any,
            affinity: Core::Core0,
        }),
        final(state).slots@[ids.1.idx as int].tcb == (ThreadControlBlock {
            sp: (old(idle_stack1)@.len() - FRAME_WORDS) as u32,
            privileged: false,
            priority: 0,
            status: ThreadStatus::Ready,
            sleep_ticks: 0,
            core: Core::Any,
            affinity: Core::Core1,
        }),
        final(state).slots@[ids.0.idx as int].mailbox@ == Seq::<
            crate::msg::RawMessage,
        >::empty(),
        final(state).slots@[ids.1.idx as int].mailbox@ == Seq::<
            crate::msg::RawMessage,
        >::empty(),
        final(state).cores@[0] == (CoreState {
            current: ids.0.idx,
            next: ids.0.idx,
            idx: ids.0.idx,
        }),
        final(state).cores@[1] == (CoreState {
            current: ids.1.idx,
            next: ids.1.idx,
            idx: ids.1.idx,
        }),
        forall|t: ThreadId| old(state).stale(t) ==> final(state).stale(t),
{
    let id0 = create_idle_thr(state, idle_stack0, idle_entry, Core::Core0);
    let ghost mid = state.slots@;
    let id1 = create_idle_thr(state, idle_stack1, idle_entry, Core::Core1);
    proof {
        lemma_first_free_from(mid, 0);
        assert(id0.idx != id1.idx);
        assert forall|j: int|
            0 <= j < old(state).slots@.len() && j != id0.idx as int
                && j != id1.idx as int implies slot_unchanged(
            old(state).slots@,
            state.slots@,
            j,
        ) by {
            assert(slot_unchanged(old(state).slots@, mid, j));
            assert(slot_unchanged(mid, state.slots@, j));
        }
        assert(slot_unchanged(mid, state.slots@, id0.idx as int));
        assert forall|t: ThreadId| old(state).stale(t) implies t.idx < state.slots@.len()
            && state.slots@[t.idx as int].gen > t.gen by {
            lemma_stale_preserved_by_insert(
                old(state).slots@,
                mid,
                id0.idx as int,
                mid[id0.idx as int].tcb,
                t,
            );
            lemma_stale_preserved_by_insert(
                mid,
                state.slots@,
                id1.idx as int,
                state.slots@[id1.idx as int].tcb,
                t,
            );
        }
    }
    let i0 = id0.idx;
    let i1 = id1.idx;
    state.cores[0] = CoreState { current: i0, next: i0, idx: i0 };
    state.cores[1] = CoreState { current: i1, next: i1, idx: i1 };
    state.inited = true;
    (id0, id1)
}

/// One tick-accounting pass over a single control record: a `Sleeping`
/// thread's countdown decreases by one, and on reaching zero the thread
/// becomes `Ready`.  Threads in any other status are untouched.
pub open spec fn tick_tcb(t: ThreadControlBlock) -> ThreadControlBlock {
    if t.status == ThreadStatus::Sleeping {
        let remaining = if t.sleep_ticks > 0 {
            (t.sleep_ticks - 1) as u32
        } else {
            0u32
        };
        ThreadControlBlock {
            sleep_ticks: remaining,
            status: if remaining == 0 {
                ThreadStatus::Ready
            } else {
                ThreadStatus::Sleeping
            },
            ..t
        }
    } else {
        t
    }
}

/// `k` tick-accounting passes applied to one control record.
pub open spec fn iter_tick_tcb(t: ThreadControlBlock, k: nat) -> ThreadControlBlock
    decreases k,
{
    if k == 0 {
        t
    } else {
        iter_tick_tcb(tick_tcb(t), (k - 1) as nat)
    }
}

/// A thread set `Sleeping` with countdown `n` stays `Sleeping` — and hence is
/// never a scheduling candidate — through the first `n - 1` tick-accounting
/// passes, with its countdown decreased by one per pass; on exactly the
/// `n`th pass it becomes `Ready` with the countdown spent.  No pass touches
/// its priority or affinity.
pub proof fn lemma_sleep_countdown(t: ThreadControlBlock, k: nat)
    requires
        t.status == ThreadStatus::Sleeping,
        t.sleep_ticks >= 1,
        k <= t.sleep_ticks,
    ensures
        k < t.sleep_ticks ==> {
            &&& iter_tick_tcb(t, k).status == ThreadStatus::Sleeping
            &&& iter_tick_tcb(t, k).sleep_ticks == t.sleep_ticks - k
        },
        k == t.sleep_ticks ==> {
            &&& iter_tick_tcb(t, k).status == ThreadStatus::Ready
            &&& iter_tick_tcb(t, k).sleep_ticks == 0
        },
        iter_tick_tcb(t, k).priority == t.priority,
        iter_tick_tcb(t, k).affinity == t.affinity,
        iter_tick_tcb(t, k).sp == t.sp,
        iter_tick_tcb(t, k).privileged == t.privileged,
    decreases k,
{
    if k > 0 {
        let t1 = tick_tcb(t);
        if t.sleep_ticks > 1 {
            lemma_sleep_countdown(t1, (k - 1) as nat);
        } else {
            lemma_iter_tick_fixed(t1, (k - 1) as nat);
        }
    }
}

/// A thread that is not `Sleeping` is left untouched by any number of
/// tick-accounting passes.
pub proof fn lemma_iter_tick_fixed(t: ThreadControlBlock, k: nat)
    requires
        t.status != ThreadStatus::Sleeping,
    ensures
        iter_tick_tcb(t, k) == t,
    decreases k,
{
    if k > 0 {
        lemma_iter_tick_fixed(t, (k - 1) as nat);
    }
}

/// A thread that is not `Ready` is never the scheduler's selection as long
/// as any candidate exists at all (the idle threads normally guarantee one).
pub proof fn lemma_not_ready_never_selected(s: ThreadingState, core: Core, i: int)
    requires
        s.wf(),
        core.is_physical(),
        0 <= i < s.slots@.len(),
        s.slots@[i].tcb.status != ThreadStatus::Ready,
        exists|j: int| is_candidate(s.slots@, core, j),
    ensures
        selected_idx(s.slots@, core) != i,
        is_candidate(s.slots@, core, selected_idx(s.slots@, core)),
{
    lemma_best_candidate_upto(s.slots@, core, s.slots@.len() as int);
    let j = choose|j: int| is_candidate(s.slots@, core, j);
    assert(is_candidate(s.slots@, core, j));
}

/// One tick-accounting pass over the whole table: every `Sleeping` thread's
/// countdown decreases, any countdown that runs out turns its thread
/// `Ready`.  Runs exactly once per logical tick, system-wide.
pub fn run_tick(state: &mut ThreadingState)
    requires
        old(state).wf(),
    ensures
        final(state).wf(),
        final(state).slots@.len() == old(state).slots@.len(),
        forall|j: int|
            0 <= j < old(state).slots@.len() ==> {
                &&& final(state).slots@[j].gen == old(state).slots@[j].gen
                &&& final(state).slots@[j].active == old(state).slots@[j].active
                &&& final(state).slots@[j].mailbox@ == old(state).slots@[j].mailbox@
                &&& final(state).slots@[j].tcb == tick_tcb(#[trigger] old(state).slots@[j].tcb)
            },
        final(state).cores@ == old(state).cores@,
        final(state).inited == old(state).inited,
        final(state).counter == old(state).counter,
        final(state).prev_cnt == old(state).prev_cnt,
{
    let n = state.slots.len();
    let mut i: usize = 0;
    while i < n
        invariant
            n == state.slots@.len(),
            n == old(state).slots@.len(),
            i <= n,
            forall|j: int|
                0 <= j < i ==> {
                    &&& state.slots@[j].gen == old(state).slots@[j].gen
                    &&& state.slots@[j].active == old(state).slots@[j].active
                    &&& state.slots@[j].mailbox@ == old(state).slots@[j].mailbox@
                    &&& state.slots@[j].tcb == tick_tcb(#[trigger] old(state).slots@[j].tcb)
                },
            forall|j: int| i <= j < n ==> slot_unchanged(state.slots@, old(state).slots@, j),
            state.cores@ == old(state).cores@,
            state.inited == old(state).inited,
            state.counter == old(state).counter,
            state.prev_cnt == old(state).prev_cnt,
        decreases n - i,
    {
        proof {
            assert(slot_unchanged(state.slots@, old(state).slots@, i as int));
        }
        let ghost prev = state.slots@;
        let t = state.slots[i].tcb;
        if t.status == ThreadStatus::Sleeping {
            let remaining: u32 = if t.sleep_ticks > 0 {
                t.sleep_ticks - 1
            } else {
                0
            };
            let mut t2 = t;
            t2.sleep_ticks = remaining;
            if remaining == 0 {
                t2.status = ThreadStatus::Ready;
            }
            state.slots[i].tcb = t2;
        }
        proof {
            assert forall|j: int| i + 1 <= j < n implies slot_unchanged(
                state.slots@,
                old(state).slots@,
                j,
            ) by {
                assert(slot_unchanged(prev, old(state).slots@, j));
            }
        }
        i = i + 1;
    }
}

/// The cursor `cs` of `core` after one scheduling decision over `slots`:
/// while no handoff is in flight (`current == next`) the scheduler's
/// selection becomes both the transient choice and the next thread;
/// otherwise the in-flight handoff is left alone.
pub open spec fn decide_cursor(slots: Seq<ThreadSlot>, cs: CoreState, core: Core) -> CoreState {
    if cs.current == cs.next {
        CoreState {
            current: cs.current,
            next: selected_idx(slots, core) as usize,
            idx: selected_idx(slots, core) as usize,
        }
    } else {
        cs
    }
}

/// Puts the thread running on `core` to sleep for `ticks` ticks: the status
/// moves from `Ready` to `Sleeping` (any other status is kept), the
/// countdown is stored, and a fresh scheduling decision is taken so another
/// thread can be handed the core.  Returns whether a handoff is now pending;
/// the caller resumes only after the countdown has run out and the
/// scheduler has selected it again.
pub fn sleep(state: &mut ThreadingState, core: Core, ticks: u32) -> (switch: bool)
    requires
        old(state).wf(),
        old(state).inited,
        core.is_physical(),
    ensures
        final(state).wf(),
        final(state).inited,
        ({
            let t = old(state).cores@[core.as_index()].idx as int;
            &&& slots_same_except(old(state).slots@, final(state).slots@, t)
            &&& final(state).slots@[t].gen == old(state).slots@[t].gen
            &&& final(state).slots@[t].active == old(state).slots@[t].active
            &&& final(state).slots@[t].mailbox@ == old(state).slots@[t].mailbox@
            &&& final(state).slots@[t].tcb == (ThreadControlBlock {
                status: if old(state).slots@[t].tcb.status == ThreadStatus::Ready {
                    ThreadStatus::Sleeping
                } else {
                    old(state).slots@[t].tcb.status
                },
                sleep_ticks: ticks,
                ..old(state).slots@[t].tcb
            })
        }),
        final(state).cores@ == old(state).cores@.update(
            core.as_index(),
            decide_cursor(final(state).slots@, old(state).cores@[core.as_index()], core),
        ),
        switch == (final(state).cores@[core.as_index()].current
            != final(state).cores@[core.as_index()].next),
        final(state).counter == old(state).counter,
        final(state).prev_cnt == old(state).prev_cnt,
{
    let ci = core.index();
    let t = state.cores[ci].idx;
    if state.slots[t].tcb.status == ThreadStatus::Ready {
        state.slots[t].tcb.status = ThreadStatus::Sleeping;
    }
    state.slots[t].tcb.sleep_ticks = ticks;
    crate::systick::run_ctxswitch(state, core)
}

/// The accumulated tick counter.
pub fn get_counter(state: &ThreadingState) -> (r: u64)
    ensures
        r == state.counter,
{
    state.counter
}

/// The table index of the thread running on `core`.
pub fn get_current_thread_idx(state: &ThreadingState, core: Core) -> (r: usize)
    requires
        state.wf(),
        core.is_physical(),
    ensures
        r == state.cores@[core.as_index()].idx,
{
    state.cores[core.index()].idx
}

/// The slot whose thread context is live on `core`.
pub fn get_current_thread_ptr(state: &ThreadingState, core: Core) -> (r: usize)
    requires
        state.wf(),
        core.is_physical(),
    ensures
        r == state.cores@[core.as_index()].current,
{
    state.cores[core.index()].current
}

/// The slot `core` will switch to at its next handoff.
pub fn get_next_thread_ptr(state: &ThreadingState, core: Core) -> (r: usize)
    requires
        state.wf(),
        core.is_physical(),
    ensures
        r == state.cores@[core.as_index()].next,
{
    state.cores[core.index()].next
}

/// Whether a handoff is pending on `core`: the scheduling decision has
/// chosen a thread other than the one whose context is live.
pub fn switch_pending(state: &ThreadingState, core: Core) -> (r: bool)
    requires
        state.wf(),
        core.is_physical(),
    ensures
        r == (state.cores@[core.as_index()].current != state.cores@[core.as_index()].next),
{
    let cs = state.cores[core.index()];
    cs.current != cs.next
}

/// A stale identifier is never the scheduler's choice: once a thread is
/// killed, its identifier can never again be returned, even if later-created
/// threads reuse its slot (they carry a later generation).
pub proof fn lemma_stale_never_selected(s: ThreadingState, core: Core, id: ThreadId)
    requires
        s.wf(),
        core.is_physical(),
        s.stale(id),
    ensures
        s.id_of(selected_idx(s.slots@, core)) != id,
{
    lemma_best_candidate_upto(s.slots@, core, s.slots@.len() as int);
    let sel = selected_idx(s.slots@, core);
    assert(0 <= sel <= s.slots@.len());
    if sel == id.idx as int {
        assert(s.slots@[sel].gen > id.gen);
    } else {
        assert(sel as usize != id.idx);
    }
}

/// Installing a new thread never revives a stale identifier: a reused slot
/// keeps the generation the kill advanced, and a fresh slot lies beyond any
/// slot a stale identifier can name.  Together with the other operations —
/// which leave every generation untouched — and
/// [`lemma_stale_never_selected`], a killed thread's identifier is out of
/// the scheduler's reach forever, however many threads are created later.
pub proof fn lemma_stale_preserved_by_insert(
    a: Seq<ThreadSlot>,
    b: Seq<ThreadSlot>,
    i: int,
    tcb: ThreadControlBlock,
    id: ThreadId,
)
    requires
        0 <= i <= a.len(),
        inserted_at(a, b, i, tcb),
        id.idx < a.len(),
        a[id.idx as int].gen > id.gen,
    ensures
        id.idx < b.len(),
        b[id.idx as int].gen > id.gen,
{
    if id.idx as int == i {
        assert(b[i].gen == a[i].gen);
    } else {
        assert(slot_unchanged(a, b, id.idx as int));
    }
}

} // verus!
