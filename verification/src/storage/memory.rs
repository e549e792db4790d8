//! The process-local backend: no persistence, insert-if-absent semantics,
//! and never an internal failure. Useful for tests and as the reference
//! implementation of the storage contract.

use vstd::prelude::*;

use crate::Storage;
use crate::storage::Mapping;
use crate::urls::Url;
use crate::validator::Code;

verus! {

/// A process-local mapping held as a list of pairs with pairwise distinct
/// codes.
pub struct Memory {
    entries: Vec<(Code, Url)>,
}

/// The mapping a list of pairs denotes; on duplicate codes the later entry
/// would win, which the invariant below rules out.
spec fn view_of(entries: Seq<(Code, Url)>) -> Mapping
    decreases entries.len(),
{
    if entries.len() == 0 {
        Map::empty()
    } else {
        view_of(entries.drop_last()).insert(entries.last().0@, entries.last().1@)
    }
}

/// No two entries share a code.
spec fn distinct_keys(entries: Seq<(Code, Url)>) -> bool {
    forall|i: int, j: int|
        0 <= i < j < entries.len() ==> entries[i].0@ != entries[j].0@
}

/// A code is in the denoted mapping exactly when some entry carries it.
proof fn lemma_view_contains(entries: Seq<(Code, Url)>, k: Seq<char>)
    ensures
        view_of(entries).contains_key(k) <==> exists|i: int|
            0 <= i < entries.len() && entries[i].0@ == k,
    decreases entries.len(),
{
    if entries.len() > 0 {
        lemma_view_contains(entries.drop_last(), k);
        if entries.last().0@ == k {
            assert(entries[entries.len() - 1].0@ == k);
        } else if view_of(entries).contains_key(k) {
            let i = choose|i: int| 0 <= i < entries.drop_last().len() && entries.drop_last()[i].0@
                == k;
            assert(entries[i].0@ == k);
        } else {
            assert forall|i: int| 0 <= i < entries.len() implies entries[i].0@ != k by {
                if i < entries.len() - 1 {
                    assert(entries.drop_last()[i] == entries[i]);
                }
            }
        }
    }
}

/// With distinct codes, each entry is what its code resolves to.
proof fn lemma_view_at(entries: Seq<(Code, Url)>, i: int)
    requires
        distinct_keys(entries),
        0 <= i < entries.len(),
    ensures
        view_of(entries).contains_key(entries[i].0@),
        view_of(entries)[entries[i].0@] == entries[i].1@,
    decreases entries.len(),
{
    if i < entries.len() - 1 {
        assert(distinct_keys(entries.drop_last()));
        assert(entries.drop_last()[i] == entries[i]);
        lemma_view_at(entries.drop_last(), i);
        assert(entries.last().0@ != entries[i].0@);
    }
}

impl Memory {
    /// The index of the entry holding `code`, if any.
    fn position(entries: &Vec<(Code, Url)>, code: &Code) -> (r: Option<usize>)
        ensures
            match r {
                Some(i) => i < entries@.len() && entries@[i as int].0@ == code@,
                None => forall|j: int| 0 <= j < entries@.len() ==> entries@[j].0@ != code@,
            },
    {
        let n = entries.len();
        let mut i: usize = 0;
        while i < n
            invariant
                i <= n,
                n == entries@.len(),
                forall|j: int| 0 <= j < i ==> entries@[j].0@ != code@,
            decreases n - i,
        {
            if entries[i].0 == *code {
                return Some(i);
            }
            i = i + 1;
        }
        None
    }
}

impl Default for Memory {
    fn default() -> (r: Self)
        ensures
            r.inv(),
            r.mapping() == Map::<Seq<char>, Seq<char>>::empty(),
    {
        Memory { entries: Vec::new() }
    }
}

impl Storage for Memory {
    closed spec fn mapping(&self) -> Mapping {
        view_of(self.entries@)
    }

    closed spec fn inv(&self) -> bool {
        distinct_keys(self.entries@)
    }

    fn store(&mut self, url: Url, code: &Code) -> (r: Result<(), crate::error::Storage>)
        ensures
            // this backend decides exactly: success iff the code was free,
            // and the only failure it knows is a duplicate
            r is Ok <==> !old(self).mapping().contains_key(code@),
            r matches Err(e) ==> e is Duplicate,
    {
        proof {
            lemma_view_contains(self.entries@, code@);
        }
        match Self::position(&self.entries, code) {
            Some(_) => Err(crate::error::Storage::Duplicate),
            None => {
                let ghost entries0 = self.entries@;
                self.entries.push((code.clone(), url));
                proof {
                    assert(self.entries@.drop_last() =~= entries0);
                    assert(self.entries@.last() == self.entries@[entries0.len() as int]);
                    assert forall|i: int, j: int|
                        0 <= i < j < self.entries@.len() implies self.entries@[i].0@
                        != self.entries@[j].0@ by {
                        if j < entries0.len() {
                            assert(entries0[i] == self.entries@[i]);
                            assert(entries0[j] == self.entries@[j]);
                        } else {
                            assert(entries0[i] == self.entries@[i]);
                        }
                    }
                }
                Ok(())
            },
        }
    }

    fn load(&mut self, code: &Code) -> (r: Result<Url, crate::error::Load>)
        ensures
            // this backend decides exactly: a URL iff the code is taken
            r is Ok <==> old(self).mapping().contains_key(code@),
            r matches Err(e) ==> e is NotFound,
    {
        proof {
            lemma_view_contains(self.entries@, code@);
        }
        match Self::position(&self.entries, code) {
            Some(i) => {
                proof {
                    lemma_view_at(self.entries@, i as int);
                }
                Ok(self.entries[i].1.clone())
            },
            None => Err(crate::error::Load::NotFound),
        }
    }
}

} // verus!
