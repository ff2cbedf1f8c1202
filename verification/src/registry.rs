//! Symbolic name registry.
//!
//! Maps thread names to generation-checked identifiers.  Each name maps to at
//! most one identifier; registering an existing name overwrites its entry.
//! Entries are not removed when a thread dies, so a name may keep pointing at
//! a stale identifier — the generation check at the point of use detects
//! that, as the lifecycle design intends.

use crate::thread::ThreadId;
use vstd::prelude::*;

verus! {

/// One name-to-identifier binding.
pub struct RegEntry {
    /// The registered name.
    pub name: String,
    /// The identifier the name is bound to.
    pub id: ThreadId,
}

/// The name registry: a list of bindings with pairwise-distinct names.
pub struct Registry {
    /// The bindings, oldest first.
    pub entries: Vec<RegEntry>,
}

/// The identifier bound to `name` when scanning bindings from position `k`
/// on, or `None` when no binding from `k` on carries that name.
pub open spec fn lookup_from(entries: Seq<RegEntry>, name: Seq<char>, k: int) -> Option<ThreadId>
    decreases entries.len() - k,
    when 0 <= k <= entries.len()
{
    if k >= entries.len() {
        None
    } else if entries[k].name@ == name {
        Some(entries[k].id)
    } else {
        lookup_from(entries, name, k + 1)
    }
}

/// The identifier bound to `name`, or `None` when the name is unregistered.
pub open spec fn spec_lookup(entries: Seq<RegEntry>, name: Seq<char>) -> Option<ThreadId> {
    lookup_from(entries, name, 0)
}

/// The name most recently bound to `id`: the last binding carrying that
/// identifier, or `None` when no binding does.
pub open spec fn last_name_of(entries: Seq<RegEntry>, id: ThreadId) -> Option<Seq<char>>
    decreases entries.len(),
{
    if entries.len() == 0 {
        None
    } else if entries[entries.len() - 1].id == id {
        Some(entries[entries.len() - 1].name@)
    } else {
        last_name_of(entries.drop_last(), id)
    }
}

impl Registry {
    /// Names are pairwise distinct.
    pub open spec fn wf(self) -> bool {
        forall|i: int, j: int|
            0 <= i < j < self.entries@.len() ==> #[trigger] self.entries@[i].name@ != #[trigger] self.entries@[j].name@
    }

    /// An empty registry.
    pub fn new() -> (r: Registry)
        ensures
            r.wf(),
            r.entries@.len() == 0,
    {
        Registry { entries: Vec::new() }
    }
}

/// When no binding in `k..i` carries `name`, the scan from `k` and the scan
/// from `i` agree.
proof fn lemma_lookup_skip(entries: Seq<RegEntry>, name: Seq<char>, k: int, i: int)
    requires
        0 <= k <= i <= entries.len(),
        forall|j: int| k <= j < i ==> entries[j].name@ != name,
    ensures
        lookup_from(entries, name, k) == lookup_from(entries, name, i),
    decreases i - k,
{
    if k < i {
        lemma_lookup_skip(entries, name, k + 1, i);
    }
}

/// Registers `name` for thread `id`: overwrites the binding when the name is
/// already registered, appends a new binding otherwise.
pub fn set_registry_for_idx(reg: &mut Registry, id: ThreadId, name: &str)
    requires
        old(reg).wf(),
    ensures
        final(reg).wf(),
        spec_lookup(final(reg).entries@, name@) == Some(id),
        (match spec_lookup(old(reg).entries@, name@) {
            Option::Some(_) => {
                &&& final(reg).entries@.len() == old(reg).entries@.len()
                &&& forall|j: int|
                    0 <= j < old(reg).entries@.len() ==> #[trigger] final(reg).entries@[j].name@
                        == old(reg).entries@[j].name@
                &&& forall|j: int|
                    0 <= j < old(reg).entries@.len() && old(reg).entries@[j].name@ != name@
                        ==> #[trigger] final(reg).entries@[j].id == old(reg).entries@[j].id
            },
            Option::None => {
                &&& final(reg).entries@.len() == old(reg).entries@.len() + 1
                &&& forall|j: int|
                    0 <= j < old(reg).entries@.len() ==> #[trigger] final(reg).entries@[j].name@
                        == old(reg).entries@[j].name@ && #[trigger] final(reg).entries@[j].id
                        == old(reg).entries@[j].id
                &&& final(reg).entries@.last().name@ == name@
            },
        }),
{
    let key: String = name.to_owned();
    let n = reg.entries.len();
    let mut i: usize = 0;
    while i < n
        invariant
            *reg == *old(reg),
            old(reg).wf(),
            key@ == name@,
            n == reg.entries@.len(),
            i <= n,
            forall|j: int| 0 <= j < i ==> reg.entries@[j].name@ != name@,
        decreases n - i,
    {
        if reg.entries[i].name == key {
            proof {
                lemma_lookup_skip(reg.entries@, name@, 0, i as int);
            }
            reg.entries[i].id = id;
            proof {
                lemma_lookup_skip(reg.entries@, name@, 0, i as int);
            }
            return ;
        }
        i = i + 1;
    }
    proof {
        lemma_lookup_skip(reg.entries@, name@, 0, n as int);
    }
    reg.entries.push(RegEntry { name: key, id });
    proof {
        lemma_lookup_skip(reg.entries@, name@, 0, n as int);
    }
}

/// Looks a thread identifier up by registered name.
pub fn lookup_by_name(reg: &Registry, name: &str) -> (r: Option<ThreadId>)
    ensures
        r == spec_lookup(reg.entries@, name@),
{
    let key: String = name.to_owned();
    let n = reg.entries.len();
    let mut i: usize = 0;
    while i < n
        invariant
            key@ == name@,
            n == reg.entries@.len(),
            i <= n,
            forall|j: int| 0 <= j < i ==> reg.entries@[j].name@ != name@,
        decreases n - i,
    {
        if reg.entries[i].name == key {
            proof {
                lemma_lookup_skip(reg.entries@, name@, 0, i as int);
            }
            return Some(reg.entries[i].id);
        }
        i = i + 1;
    }
    proof {
        lemma_lookup_skip(reg.entries@, name@, 0, n as int);
    }
    None
}

/// Looks the most recently registered name for `id` up.
pub fn lookup_by_idx(reg: &Registry, id: ThreadId) -> (r: Option<String>)
    ensures
        (match r {
            Option::Some(s) => last_name_of(reg.entries@, id) == Some(s@),
            Option::None => last_name_of(reg.entries@, id) is None,
        }),
{
    let n = reg.entries.len();
    proof {
        assert(reg.entries@.subrange(0, n as int) =~= reg.entries@);
    }
    let mut i: usize = n;
    while i > 0
        invariant
            n == reg.entries@.len(),
            i <= n,
            last_name_of(reg.entries@, id) == last_name_of(
                reg.entries@.subrange(0, i as int),
                id,
            ),
        decreases i,
    {
        i = i - 1;
        if reg.entries[i].id == id {
            proof {
                assert(reg.entries@.subrange(0, i + 1).last() == reg.entries@[i as int]);
            }
            return Some(reg.entries[i].name.clone());
        }
        proof {
            assert(reg.entries@.subrange(0, i + 1).drop_last() =~= reg.entries@.subrange(
                0,
                i as int,
            ));
            assert(reg.entries@.subrange(0, i + 1).last() == reg.entries@[i as int]);
        }
    }
    proof {
        assert(reg.entries@.subrange(0, 0).len() == 0);
    }
    None
}

} // verus!
