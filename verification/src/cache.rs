//! The currency cache: a mapping from trimmed country names to resolved
//! currency codes, memoizing upstream lookups for the life of the process.
//!
//! The store keeps at most one entry per name; overwriting a name replaces
//! its code (last writer wins), so racing resolutions of the same name
//! converge to a single entry. Sharing across concurrent tasks is the
//! caller's concern: the server guards one `CurrencyCache` with a lock and
//! calls these methods under it.

use crate::text::str_eq;
use vstd::pervasive::VecAdditionalExecFns;
use vstd::prelude::*;

verus! {

/// The keys of `s` are pairwise distinct.
pub open spec fn keys_unique(s: Seq<(String, String)>) -> bool {
    forall|i: int, j: int| 0 <= i < j < s.len() ==> s[i].0@ != s[j].0@
}

/// The mapping that a sequence of entries denotes; a later entry for the
/// same key wins.
pub open spec fn entries_map(s: Seq<(String, String)>) -> Map<Seq<char>, Seq<char>>
    decreases s.len(),
{
    if s.len() == 0 {
        Map::empty()
    } else {
        entries_map(s.drop_last()).insert(s.last().0@, s.last().1@)
    }
}

/// A key is in the mapping exactly when some entry holds it.
proof fn lemma_entries_map_dom(s: Seq<(String, String)>, k: Seq<char>)
    ensures
        entries_map(s).contains_key(k) <==> (exists|i: int| 0 <= i < s.len() && s[i].0@ == k),
    decreases s.len(),
{
    if s.len() > 0 {
        lemma_entries_map_dom(s.drop_last(), k);
        if s.last().0@ == k {
            assert(s[s.len() - 1].0@ == k);
        } else {
            assert(forall|i: int| 0 <= i < s.len() - 1 ==> s.drop_last()[i] == s[i]);
            if exists|i: int| 0 <= i < s.len() && s[i].0@ == k {
                let i = choose|i: int| 0 <= i < s.len() && s[i].0@ == k;
                assert(s.drop_last()[i] == s[i]);
            }
        }
    }
}

/// With distinct keys, each entry gives its key's value in the mapping.
proof fn lemma_entries_map_at(s: Seq<(String, String)>, i: int)
    requires
        keys_unique(s),
        0 <= i < s.len(),
    ensures
        entries_map(s).contains_key(s[i].0@),
        entries_map(s)[s[i].0@] == s[i].1@,
    decreases s.len(),
{
    if i < s.len() - 1 {
        assert(keys_unique(s.drop_last()));
        assert(s.drop_last()[i] == s[i]);
        lemma_entries_map_at(s.drop_last(), i);
        assert(s[i].0@ != s.last().0@);
    }
}

/// Appending an entry inserts its binding.
proof fn lemma_entries_map_push(s: Seq<(String, String)>, e: (String, String))
    ensures
        entries_map(s.push(e)) == entries_map(s).insert(e.0@, e.1@),
{
    assert(s.push(e).drop_last() =~= s);
    assert(s.push(e).last() == e);
}

/// Overwriting the value of entry `i` re-inserts that key's binding.
proof fn lemma_entries_map_update(s: Seq<(String, String)>, i: int, v: String)
    requires
        keys_unique(s),
        0 <= i < s.len(),
    ensures
        entries_map(s.update(i, (s[i].0, v))) == entries_map(s).insert(s[i].0@, v@),
    decreases s.len(),
{
    let s2 = s.update(i, (s[i].0, v));
    if i == s.len() - 1 {
        assert(s2.drop_last() =~= s.drop_last());
        assert(entries_map(s2) == entries_map(s.drop_last()).insert(s[i].0@, v@));
        assert(entries_map(s.drop_last()).insert(s[i].0@, v@) =~= entries_map(s).insert(
            s[i].0@,
            v@,
        ));
    } else {
        assert(keys_unique(s.drop_last()));
        assert(s.drop_last()[i] == s[i]);
        lemma_entries_map_update(s.drop_last(), i, v);
        assert(s2.drop_last() =~= s.drop_last().update(i, (s[i].0, v)));
        assert(s2.last() == s.last());
        assert(s[i].0@ != s.last().0@);
        assert(entries_map(s2) == entries_map(s.drop_last()).insert(s[i].0@, v@).insert(
            s.last().0@,
            s.last().1@,
        ));
        assert(entries_map(s.drop_last()).insert(s[i].0@, v@).insert(s.last().0@, s.last().1@)
            =~= entries_map(s).insert(s[i].0@, v@));
    }
}

/// With distinct keys the mapping has exactly one binding per entry.
proof fn lemma_entries_map_size(s: Seq<(String, String)>)
    requires
        keys_unique(s),
    ensures
        entries_map(s).dom().finite(),
        entries_map(s).dom().len() == s.len(),
    decreases s.len(),
{
    if s.len() > 0 {
        assert(keys_unique(s.drop_last()));
        lemma_entries_map_size(s.drop_last());
        lemma_entries_map_dom(s.drop_last(), s.last().0@);
        assert(forall|i: int|
            0 <= i < s.len() - 1 ==> s.drop_last()[i] == s[i] && s[i].0@ != s.last().0@);
        assert(!entries_map(s.drop_last()).contains_key(s.last().0@));
    }
}

/// The process-lifetime cache of resolved currency codes.
pub struct CurrencyCache {
    entries: Vec<(String, String)>,
}

impl View for CurrencyCache {
    type V = Map<Seq<char>, Seq<char>>;

    closed spec fn view(&self) -> Map<Seq<char>, Seq<char>> {
        entries_map(self.entries@)
    }
}

impl CurrencyCache {
    /// Well-formed: at most one entry per name, so every reader of a name
    /// observes the one complete code stored for it.
    pub closed spec fn wf(&self) -> bool {
        keys_unique(self.entries@)
    }

    /// An empty cache, as created once at process startup.
    pub fn new() -> (c: CurrencyCache)
        ensures
            c.wf(),
            c@ == Map::<Seq<char>, Seq<char>>::empty(),
    {
        CurrencyCache { entries: Vec::new() }
    }

    /// How many names have an entry.
    pub fn len(&self) -> (n: usize)
        requires
            self.wf(),
        ensures
            self@.dom().finite(),
            n == self@.dom().len(),
    {
        proof {
            lemma_entries_map_size(self.entries@);
        }
        self.entries.len()
    }

    /// Looks a name up: the stored code, or `None` when the name has no
    /// entry. No side effect either way.
    pub fn get(&self, name: &str) -> (r: Option<&String>)
        requires
            self.wf(),
        ensures
            match r {
                Some(code) => self@.contains_key(name@) && code@ == self@[name@],
                None => !self@.contains_key(name@),
            },
    {
        let n = self.entries.len();
        let mut i: usize = 0;
        while i < n
            invariant
                n == self.entries@.len(),
                i <= n,
                keys_unique(self.entries@),
                self@ == entries_map(self.entries@),
                forall|j: int| 0 <= j < i ==> self.entries@[j].0@ != name@,
            decreases n - i,
        {
            if str_eq(self.entries[i].0.as_str(), name) {
                proof {
                    lemma_entries_map_at(self.entries@, i as int);
                }
                return Some(&self.entries[i].1);
            }
            i = i + 1;
        }
        proof {
            lemma_entries_map_dom(self.entries@, name@);
        }
        None
    }

    /// Stores `name -> code`, replacing any earlier code for the name:
    /// last writer wins, and the name keeps exactly one entry.
    pub fn insert(&mut self, name: &str, code: String)
        requires
            old(self).wf(),
        ensures
            final(self).wf(),
            final(self)@ == old(self)@.insert(name@, code@),
    {
        let n = self.entries.len();
        let mut i: usize = 0;
        while i < n
            invariant
                n == self.entries@.len(),
                i <= n,
                keys_unique(self.entries@),
                self.entries@ == old(self).entries@,
                forall|j: int| 0 <= j < i ==> self.entries@[j].0@ != name@,
            decreases n - i,
        {
            if str_eq(self.entries[i].0.as_str(), name) {
                proof {
                    lemma_entries_map_update(self.entries@, i as int, code);
                    assert(self.entries@[i as int].0@ == name@);
                    assert(entries_map(self.entries@).insert(self.entries@[i as int].0@, code@)
                        =~= entries_map(self.entries@).insert(name@, code@));
                }
                let ghost key = self.entries@[i as int].0;
                let entry = (self.entries[i].0.clone(), code);
                proof {
                    assert(entry.0 == key);
                }
                self.entries.set(i, entry);
                proof {
                    assert(keys_unique(self.entries@)) by {
                        assert(forall|j: int|
                            0 <= j < self.entries@.len() ==> self.entries@[j].0@ == old(
                                self,
                            ).entries@[j].0@);
                    }
                }
                return ;
            }
            i = i + 1;
        }
        let owned = name.to_owned();
        proof {
            lemma_entries_map_push(self.entries@, (owned, code));
        }
        self.entries.push((owned, code));
        proof {
            assert(keys_unique(self.entries@));
        }
    }
}

} // verus!
