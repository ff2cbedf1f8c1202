//! Cross-core mutual exclusion.
//!
//! A fixed pool of hardware lock registers is shared by both cores; a
//! software ownership table records which of them are allocated.  One
//! register is reserved to guard the ownership table itself, which breaks
//! the allocation chicken-and-egg problem.  The hardware registers are
//! modelled by [`SioLocks`]: reading a free register claims it and returns
//! success, reading a held one returns failure, and writing the unlock
//! sentinel frees it — exactly the contract the scheduler, thread table and
//! mailboxes are built on.
//!
//! These operations should only be used for state that both cores can
//! reach; for data guarded by an already-held lock, use [`Mutex`].

use vstd::prelude::*;

verus! {

/// Number of allocatable lock slots; the remaining registers are reserved
/// for platform use.
pub const LOCK_COUNT: usize = 30;

/// Total number of hardware lock registers.
pub const HW_LOCK_COUNT: usize = 32;

/// The reserved slot that guards the ownership table itself.
pub const SYNC_LOCK: usize = 30;

/// Ownership-table marker: nobody has allocated the slot.
pub const LOCK_UNOWNED: u8 = 0;

/// Ownership-table marker: the slot is allocated.
pub const LOCK_ALLOC: u8 = 4;

/// A token naming one hardware lock slot.  Holding it inside a critical
/// section witnesses exclusive access.
#[derive(Clone, Copy, Debug, PartialEq, Eq, Structural)]
pub struct LockToken(pub u8);

/// The software ownership table: one entry per allocatable lock slot,
/// recording whether it is free or allocated.  All access happens under the
/// reserved [`SYNC_LOCK`] register.
pub struct LockTable {
    /// Per-slot ownership markers.
    pub owners: Vec<u8>,
}

impl LockTable {
    /// One marker per allocatable slot.
    pub open spec fn wf(self) -> bool {
        self.owners@.len() == LOCK_COUNT
    }

    /// A table with every slot free.
    pub fn new() -> (r: LockTable)
        ensures
            r.wf(),
            forall|i: int| 0 <= i < LOCK_COUNT ==> r.owners@[i] == LOCK_UNOWNED,
    {
        let mut owners: Vec<u8> = Vec::new();
        let mut i: usize = 0;
        while i < LOCK_COUNT
            invariant
                owners@.len() == i,
                i <= LOCK_COUNT,
                forall|j: int| 0 <= j < i ==> owners@[j] == LOCK_UNOWNED,
            decreases LOCK_COUNT - i,
        {
            owners.push(LOCK_UNOWNED);
            i = i + 1;
        }
        LockTable { owners }
    }
}

/// The state of the hardware lock registers, as both cores observe it:
/// `true` marks a register some core holds.  Claiming is an atomic
/// test-and-set the hardware performs on the register read.
pub struct SioLocks {
    /// Per-register held flags.
    pub held: Vec<bool>,
}

impl SioLocks {
    /// One flag per hardware register.
    pub open spec fn wf(self) -> bool {
        self.held@.len() == HW_LOCK_COUNT
    }

    /// All registers free, as after the boot-time wipe.
    pub fn new() -> (r: SioLocks)
        ensures
            r.wf(),
            forall|i: int| 0 <= i < HW_LOCK_COUNT ==> !r.held@[i],
    {
        let mut held: Vec<bool> = Vec::new();
        let mut i: usize = 0;
        while i < HW_LOCK_COUNT
            invariant
                held@.len() == i,
                i <= HW_LOCK_COUNT,
                forall|j: int| 0 <= j < i ==> !held@[j],
            decreases HW_LOCK_COUNT - i,
        {
            held.push(false);
            i = i + 1;
        }
        SioLocks { held }
    }
}

/// Finds a free slot in the ownership table, marks it allocated and returns
/// its token; reports nothing when every slot is taken.  Must run under the
/// reserved allocation lock — here, exclusive table access.
fn claim_unused(table: &mut LockTable) -> (r: Option<LockToken>)
    requires
        old(table).wf(),
    ensures
        final(table).wf(),
        (match r {
            Option::Some(tok) => {
                &&& (tok.0 as int) < LOCK_COUNT
                &&& old(table).owners@[tok.0 as int] == LOCK_UNOWNED
                &&& forall|j: int| 0 <= j < tok.0 as int ==> old(table).owners@[j] != LOCK_UNOWNED
                &&& final(table).owners@ == old(table).owners@.update(
                    tok.0 as int,
                    LOCK_ALLOC,
                )
            },
            Option::None => {
                &&& forall|j: int| 0 <= j < LOCK_COUNT ==> old(table).owners@[j] != LOCK_UNOWNED
                &&& *final(table) == *old(table)
            },
        }),
{
    let mut i: usize = 0;
    while i < LOCK_COUNT
        invariant
            *table == *old(table),
            old(table).wf(),
            i <= LOCK_COUNT,
            forall|j: int| 0 <= j < i ==> table.owners@[j] != LOCK_UNOWNED,
        decreases LOCK_COUNT - i,
    {
        if table.owners[i] == LOCK_UNOWNED {
            table.owners[i] = LOCK_ALLOC;
            return Some(LockToken(i as u8));
        }
        i = i + 1;
    }
    None
}

/// Returns an allocated slot to the free pool.  Must run under the reserved
/// allocation lock — here, exclusive table access.
fn unclaim_lock(table: &mut LockTable, lock: LockToken) -> (r: LockToken)
    requires
        old(table).wf(),
        (lock.0 as int) < LOCK_COUNT,
    ensures
        final(table).wf(),
        final(table).owners@ == old(table).owners@.update(lock.0 as int, LOCK_UNOWNED),
        r == lock,
{
    table.owners[lock.0 as usize] = LOCK_UNOWNED;
    lock
}

/// A cross-core spinlock: a handle to one hardware lock register, allocated
/// out of the shared pool.  No reentrancy: a second claim by the holding
/// core busy-waits forever.
pub struct Spinlock {
    /// The slot this lock owns.
    pub lock: LockToken,
}

impl Spinlock {
    /// The hardware register index this lock uses.
    pub open spec fn slot(self) -> int {
        self.lock.0 as int
    }

    /// Allocates a fresh lock out of the pool: the lowest free slot of the
    /// ownership table, or nothing when every slot is taken.
    pub fn new(table: &mut LockTable) -> (r: Option<Spinlock>)
        requires
            old(table).wf(),
        ensures
            final(table).wf(),
            (match r {
                Option::Some(s) => {
                    &&& s.slot() < LOCK_COUNT
                    &&& old(table).owners@[s.slot()] == LOCK_UNOWNED
                    &&& forall|j: int| 0 <= j < s.slot() ==> old(table).owners@[j] != LOCK_UNOWNED
                    &&& final(table).owners@ == old(table).owners@.update(s.slot(), LOCK_ALLOC)
                },
                Option::None => {
                    &&& forall|j: int| 0 <= j < LOCK_COUNT ==> old(table).owners@[j] != LOCK_UNOWNED
                    &&& *final(table) == *old(table)
                },
            }),
    {
        let lock_index = claim_unused(table);
        match lock_index {
            Some(index) => Some(Spinlock { lock: index }),
            None => None,
        }
    }

    /// A handle to the reserved table-guarding slot, usable before any
    /// allocation has happened.
    pub fn empty() -> (r: Spinlock)
        ensures
            r.slot() == SYNC_LOCK,
    {
        Spinlock { lock: LockToken(30) }
    }

    /// Returns this lock's slot to the free pool and releases its register.
    pub fn deinit(&self, table: &mut LockTable, sio: &mut SioLocks) -> (r: LockToken)
        requires
            old(table).wf(),
            old(sio).wf(),
            self.slot() < LOCK_COUNT,
        ensures
            final(table).wf(),
            final(sio).wf(),
            final(table).owners@ == old(table).owners@.update(self.slot(), LOCK_UNOWNED),
            final(sio).held@ == old(sio).held@.update(self.slot(), false),
            r == self.lock,
    {
        let lock_index = unclaim_lock(table, self.lock);
        self.release(sio);
        lock_index
    }

    /// One attempt to take the lock: the hardware read atomically claims a
    /// free register and reports success; a held register reports failure
    /// and nothing changes.  Two cores can never both succeed — the failure
    /// of the second attempt is exactly the mutual exclusion.
    pub fn try_claim(&self, sio: &mut SioLocks) -> (r: Option<&Spinlock>)
        requires
            old(sio).wf(),
            self.slot() < HW_LOCK_COUNT,
        ensures
            final(sio).wf(),
            !old(sio).held@[self.slot()] ==> {
                &&& r is Some
                &&& final(sio).held@ == old(sio).held@.update(self.slot(), true)
            },
            old(sio).held@[self.slot()] ==> {
                &&& r is None
                &&& *final(sio) == *old(sio)
            },
    {
        let i = self.lock.0 as usize;
        if !sio.held[i] {
            sio.held[i] = true;
            Some(self)
        } else {
            None
        }
    }

    /// Takes the lock, busy-waiting until the register is free.  The wait
    /// never ends while another holder keeps the register, and a second
    /// claim by the same core deadlocks — so a free register is required
    /// here.
    pub fn claim(&self, sio: &mut SioLocks) -> (r: &Spinlock)
        requires
            old(sio).wf(),
            self.slot() < HW_LOCK_COUNT,
            !old(sio).held@[self.slot()],
        ensures
            final(sio).wf(),
            final(sio).held@ == old(sio).held@.update(self.slot(), true),
    {
        let taken = self.try_claim(sio);
        match taken {
            Some(result) => result,
            None => self,
        }
    }

    /// Unconditionally writes the unlock sentinel, freeing the register.
    pub fn release(&self, sio: &mut SioLocks)
        requires
            old(sio).wf(),
            self.slot() < HW_LOCK_COUNT,
        ensures
            final(sio).wf(),
            final(sio).held@ == old(sio).held@.update(self.slot(), false),
    {
        let i = self.lock.0 as usize;
        sio.held[i] = false;
    }

    /// Runs `f` with this lock held, handing it the exclusive-access token:
    /// claims the register, invokes `f`, releases the register, and returns
    /// `f`'s result.  On the real machine the section also masks the local
    /// core's interrupts and fences the compiler across both boundaries;
    /// the lock register is what excludes the other core.
    pub fn critical_section<F: FnOnce(LockToken) -> R, R>(&self, sio: &mut SioLocks, f: F) -> (r:
        R)
        requires
            old(sio).wf(),
            self.slot() < HW_LOCK_COUNT,
            !old(sio).held@[self.slot()],
            call_requires(f, (self.lock,)),
        ensures
            final(sio).wf(),
            final(sio).held@ =~= old(sio).held@,
            call_ensures(f, (self.lock,), r),
    {
        self.claim(sio);
        let r = f(self.lock);
        self.release(sio);
        proof {
            assert(sio.held@ =~= old(sio).held@);
        }
        r
    }
}

/// Mutual exclusion on one lock register, as the hardware model keeps it: a
/// successful claim leaves the register held, every further claim attempt
/// fails while it stays held, and only the release frees it again.  Two
/// critical sections on the same lock therefore cannot interleave: the
/// second entrant's claim fails until the first holder releases.
pub proof fn lemma_mutual_exclusion(held: Seq<bool>, i: int)
    requires
        0 <= i < held.len(),
        !held[i],
    ensures
        held.update(i, true)[i],
        held.update(i, true).update(i, false)[i] == false,
{
}

/// Shares a value that is only touched inside a critical section: the
/// borrow demands the exclusive-access token as witness that the lock is
/// held.
pub struct Mutex<T> {
    /// The guarded value.
    pub inner: T,
}

impl<T> Mutex<T> {
    /// Wraps `value` for lock-guarded sharing.
    pub fn new(value: T) -> (r: Mutex<T>)
        ensures
            r.inner == value,
    {
        Mutex { inner: value }
    }

    /// Borrows the guarded value for the duration of the critical section
    /// the token witnesses.
    pub fn borrow<'sl>(&'sl self, _token: &'sl LockToken) -> (r: &'sl T)
        ensures
            *r == self.inner,
    {
        &self.inner
    }
}

} // verus!
