//! The process registry: the source of truth mapping module id to the
//! tracked running process. At most one live entry per module id; lookups,
//! insertions and removals leave every other id untouched.
//!
//! The embedding application owns the operating-system process handles and
//! the mutual-exclusion lock around a `Registry` value; the registry itself
//! records the pid and port of each tracked process.

use vstd::prelude::*;
use vstd::string::*;

use crate::text::str_eq;

verus! {

/// A tracked running process: its pid (informational) and the port it
/// serves.
#[derive(Clone, Copy, Debug, PartialEq, Eq, Structural)]
pub struct ManagedProcess {
    /// Process id reported at spawn time.
    pub pid: u32,
    /// Port the process was launched to serve.
    pub port: u16,
}

/// One registry entry: a module id and its tracked process.
struct Entry {
    id: String,
    process: ManagedProcess,
}

/// The registry mapping module ids to tracked processes.
pub struct Registry {
    entries: Vec<Entry>,
}

/// The tracked process of the first entry for `k` in `s`, if any.
spec fn seq_get(s: Seq<Entry>, k: Seq<char>) -> Option<ManagedProcess>
    decreases s.len(),
{
    if s.len() == 0 {
        Option::None
    } else if s[0].id@ == k {
        Option::Some(s[0].process)
    } else {
        seq_get(s.skip(1), k)
    }
}

/// `seq_get` finds nothing exactly when no entry carries the key.
proof fn lemma_seq_get_absent(s: Seq<Entry>, k: Seq<char>)
    ensures
        seq_get(s, k) is None <==> (forall|i: int| 0 <= i < s.len() ==> s[i].id@ != k),
    decreases s.len(),
{
    if s.len() == 0 {
    } else if s[0].id@ == k {
        assert(!(forall|i: int| 0 <= i < s.len() ==> s[i].id@ != k)) by {
            assert(0 <= 0 < s.len() && s[0].id@ == k);
        }
    } else {
        lemma_seq_get_absent(s.skip(1), k);
        if seq_get(s, k) is None {
            assert forall|i: int| 0 <= i < s.len() implies s[i].id@ != k by {
                if i > 0 {
                    assert(s.skip(1)[i - 1] == s[i]);
                }
            }
        } else {
            let i = choose|i: int| 0 <= i < s.skip(1).len() && s.skip(1)[i].id@ == k;
            assert(s.skip(1)[i] == s[i + 1]);
            assert(0 <= i + 1 < s.len() && s[i + 1].id@ == k);
        }
    }
}

/// `seq_get` returns the entry at the first matching index.
proof fn lemma_seq_get_first_match(s: Seq<Entry>, k: Seq<char>, i: int)
    requires
        0 <= i < s.len(),
        s[i].id@ == k,
        forall|j: int| 0 <= j < i ==> s[j].id@ != k,
    ensures
        seq_get(s, k) == Option::Some(s[i].process),
    decreases i,
{
    if i > 0 {
        assert(forall|j: int| 0 <= j < s.skip(1).len() ==> s.skip(1)[j] == s[j + 1]);
        lemma_seq_get_first_match(s.skip(1), k, i - 1);
    }
}

/// Appending an entry does not change the lookup of any key already bound,
/// and binds the new entry's key if it was absent.
proof fn lemma_seq_get_push(s: Seq<Entry>, e: Entry, k: Seq<char>)
    ensures
        seq_get(s.push(e), k) == (if seq_get(s, k) is Some {
            seq_get(s, k)
        } else if e.id@ == k {
            Option::Some(e.process)
        } else {
            Option::<ManagedProcess>::None
        }),
    decreases s.len(),
{
    if s.len() == 0 {
        assert(s.push(e)[0] == e);
        assert(s.push(e).skip(1) =~= Seq::<Entry>::empty());
        assert(seq_get(s.push(e).skip(1), k) is None);
    } else {
        lemma_seq_get_push(s.skip(1), e, k);
        assert(s.push(e)[0] == s[0]);
        assert(s.push(e).skip(1) =~= s.skip(1).push(e));
        if s[0].id@ == k {
            assert(seq_get(s.push(e), k) == Option::Some(s[0].process));
            assert(seq_get(s, k) == Option::Some(s[0].process));
        } else {
            assert(seq_get(s.push(e), k) == seq_get(s.skip(1).push(e), k));
            assert(seq_get(s, k) == seq_get(s.skip(1), k));
        }
    }
}

/// Removing the entry at an index whose id is not `k` does not change the
/// lookup of `k`.
proof fn lemma_seq_get_remove_other(s: Seq<Entry>, i: int, k: Seq<char>)
    requires
        0 <= i < s.len(),
        s[i].id@ != k,
    ensures
        seq_get(s.remove(i), k) == seq_get(s, k),
    decreases i,
{
    if i == 0 {
        assert(s.remove(0) =~= s.skip(1));
    } else {
        lemma_seq_get_remove_other(s.skip(1), i - 1, k);
        assert(s.remove(i)[0] == s[0]);
        assert(s.remove(i).skip(1) =~= s.skip(1).remove(i - 1));
    }
}

impl Registry {
    /// The tracked process for `k`, if any.
    pub closed spec fn spec_get(&self, k: Seq<char>) -> Option<ManagedProcess> {
        seq_get(self.entries@, k)
    }

    /// Number of tracked entries.
    pub closed spec fn spec_len(&self) -> nat {
        self.entries@.len()
    }

    /// Well-formedness: at most one entry per module id.
    pub closed spec fn wf(&self) -> bool {
        forall|i: int, j: int|
            0 <= i < j < self.entries@.len() ==> self.entries@[i].id@ != self.entries@[j].id@
    }

    /// An empty registry.
    pub fn new() -> (r: Registry)
        ensures
            r.wf(),
            r.spec_len() == 0,
            forall|k: Seq<char>| r.spec_get(k) is None,
    {
        Registry { entries: Vec::new() }
    }

    /// Number of tracked entries.
    pub fn len(&self) -> (n: usize)
        ensures
            n == self.spec_len(),
    {
        self.entries.len()
    }

    /// Looks up the tracked process for `id`.
    pub fn get(&self, id: &str) -> (r: Option<ManagedProcess>)
        ensures
            r == self.spec_get(id@),
    {
        let n = self.entries.len();
        let mut i: usize = 0;
        proof {
            assert(self.entries@.skip(0) =~= self.entries@);
        }
        while i < n
            invariant
                n == self.entries@.len(),
                i <= n,
                seq_get(self.entries@, id@) == seq_get(self.entries@.skip(i as int), id@),
            decreases n - i,
        {
            proof {
                assert(self.entries@.skip(i as int)[0] == self.entries@[i as int]);
                assert(self.entries@.skip(i as int).skip(1) =~= self.entries@.skip(i as int + 1));
            }
            if str_eq(self.entries[i].id.as_str(), id) {
                return Option::Some(self.entries[i].process);
            }
            i += 1;
        }
        proof {
            assert(self.entries@.skip(n as int) =~= Seq::<Entry>::empty());
        }
        Option::None
    }

    /// Removes the entry for `id`, returning its tracked process, or `None`
    /// if no entry exists. Every other id keeps its binding.
    pub fn remove(&mut self, id: &str) -> (r: Option<ManagedProcess>)
        requires
            old(self).wf(),
        ensures
            final(self).wf(),
            r == old(self).spec_get(id@),
            final(self).spec_get(id@) is None,
            forall|k: Seq<char>| k != id@ ==> final(self).spec_get(k) == old(self).spec_get(k),
            old(self).spec_get(id@) is None ==> *final(self) == *old(self),
    {
        let n = self.entries.len();
        let mut i: usize = 0;
        while i < n
            invariant
                old(self).wf(),
                *self == *old(self),
                n == self.entries@.len(),
                i <= n,
                forall|j: int| 0 <= j < i ==> self.entries@[j].id@ != id@,
            decreases n - i,
        {
            if str_eq(self.entries[i].id.as_str(), id) {
                let ghost pre = self.entries@;
                let ghost ii = i as int;
                let e = self.entries.remove(i);
                proof {
                    pre.remove_ensures(ii);
                    lemma_seq_get_first_match(pre, id@, ii);
                    // Uniqueness: no other index carries this id.
                    assert(forall|j: int|
                        0 <= j < pre.len() && j != ii ==> pre[j].id@ != id@) by {
                        assert(forall|j: int| 0 <= j < ii ==> pre[j].id@ != id@);
                        assert(forall|j: int|
                            ii < j < pre.len() ==> pre[ii].id@ != pre[j].id@);
                    }
                    assert(forall|j: int|
                        0 <= j < self.entries@.len() ==> self.entries@[j] == (if j < ii {
                            pre[j]
                        } else {
                            pre[j + 1]
                        }));
                    assert(forall|j: int|
                        0 <= j < self.entries@.len() ==> self.entries@[j].id@ != id@);
                    lemma_seq_get_absent(self.entries@, id@);
                    assert forall|k: Seq<char>| k != id@ implies seq_get(self.entries@, k)
                        == seq_get(pre, k) by {
                        lemma_seq_get_remove_other(pre, ii, k);
                    }
                }
                return Option::Some(e.process);
            }
            i += 1;
        }
        proof {
            lemma_seq_get_absent(self.entries@, id@);
        }
        Option::None
    }

    /// Binds `id` to `process`, replacing any previous entry for `id`.
    /// Every other id keeps its binding.
    pub fn insert(&mut self, id: &str, process: ManagedProcess)
        requires
            old(self).wf(),
        ensures
            final(self).wf(),
            final(self).spec_get(id@) == Option::Some(process),
            forall|k: Seq<char>| k != id@ ==> final(self).spec_get(k) == old(self).spec_get(k),
    {
        self.remove(id);
        let ghost mid = self.entries@;
        let entry = Entry { id: id.to_owned(), process };
        self.entries.push(entry);
        proof {
            lemma_seq_get_absent(mid, id@);
            assert forall|k: Seq<char>| #![auto] true implies seq_get(self.entries@, k) == (
            if seq_get(mid, k) is Some {
                seq_get(mid, k)
            } else if id@ == k {
                Option::Some(process)
            } else {
                Option::<ManagedProcess>::None
            }) by {
                lemma_seq_get_push(mid, entry, k);
            }
            assert(forall|j: int| 0 <= j < mid.len() ==> self.entries@[j] == mid[j]);
        }
    }
}

} // verus!
