//! Durable code-to-URL storage: the mathematical model of the mapping, the
//! laws every conforming backend obeys, and the backends themselves.

use vstd::prelude::*;

mod cached;
mod db;
mod error;
mod memory;

pub use cached::Cache;
pub use cached::Cached;
pub use db::DriverError;
pub use db::load_outcome;
pub use db::store_outcome;
pub use error::AlreadyExists;
pub use error::InternalError;
pub use error::NotFound;
pub use memory::Memory;

use crate::urls::Url;

verus! {

/// The authoritative mapping a storage holds: code text to URL text.
pub type Mapping = Map<Seq<char>, Seq<char>>;

/// One accepted shrink or store: `code` was free in `m0`, and `m1` extends
/// `m0` with exactly the new pair.
pub open spec fn fresh_insert(m0: Mapping, m1: Mapping, code: Seq<char>, url: Seq<char>) -> bool {
    &&& !m0.contains_key(code)
    &&& m1 == m0.insert(code, url)
}

/// Everything a store operation may do: on success the code was free and the
/// pair was added; on failure the mapping is untouched, a duplicate is
/// reported only when the code is taken, and a bad alias is never reported.
pub open spec fn store_post(
    m0: Mapping,
    m1: Mapping,
    code: Seq<char>,
    url: Seq<char>,
    r: Result<(), crate::error::Storage>,
) -> bool {
    match r {
        Ok(()) => fresh_insert(m0, m1, code, url),
        Err(e) => {
            &&& m1 == m0
            &&& (e is Duplicate ==> m0.contains_key(code))
            &&& !(e is BadAlias)
        },
    }
}

/// Everything a load operation may report: a URL only if it is the one stored
/// under the code, absence only if the code is truly free, and never a bad
/// alias. An internal failure says nothing about the mapping.
pub open spec fn load_post(m: Mapping, code: Seq<char>, r: Result<Url, crate::error::Load>) -> bool {
    match r {
        Ok(u) => m.contains_key(code) && u@ == m[code],
        Err(e) => {
            &&& (e is NotFound ==> !m.contains_key(code))
            &&& !(e is BadAlias)
        },
    }
}

/// Round trip: a shrink that was accepted leaves its code resolving to
/// exactly the URL it was created for.
pub proof fn lemma_round_trip(m0: Mapping, m1: Mapping, code: Seq<char>, url: Seq<char>)
    requires
        fresh_insert(m0, m1, code, url),
    ensures
        m1.contains_key(code),
        m1[code] == url,
{
}

/// Uniqueness: two accepted shrinks against the same storage never hand out
/// the same code, whatever their URLs.
pub proof fn lemma_codes_distinct(
    m0: Mapping,
    m1: Mapping,
    m2: Mapping,
    c1: Seq<char>,
    u1: Seq<char>,
    c2: Seq<char>,
    u2: Seq<char>,
)
    requires
        fresh_insert(m0, m1, c1, u1),
        fresh_insert(m1, m2, c2, u2),
    ensures
        c1 != c2,
{
}

/// Duplicate rejection: once a code is taken, no later store under it can
/// succeed or disturb what the code resolves to.
pub proof fn lemma_duplicate_rejection(
    m1: Mapping,
    m2: Mapping,
    code: Seq<char>,
    url1: Seq<char>,
    url2: Seq<char>,
    r: Result<(), crate::error::Storage>,
)
    requires
        m1.contains_key(code),
        m1[code] == url1,
        store_post(m1, m2, code, url2, r),
    ensures
        !(r is Ok),
        m2.contains_key(code),
        m2[code] == url1,
{
}

/// The mapping after a batch of stores, applied in order.
pub open spec fn apply_steps(m: Mapping, steps: Seq<(Seq<char>, Seq<char>)>) -> Mapping
    decreases steps.len(),
{
    if steps.len() == 0 {
        m
    } else {
        apply_steps(m.insert(steps[0].0, steps[0].1), steps.skip(1))
    }
}

/// Every step's code was still free when its turn came, as the accepted
/// shrinks of a batch guarantee.
pub open spec fn all_fresh(m: Mapping, steps: Seq<(Seq<char>, Seq<char>)>) -> bool
    decreases steps.len(),
{
    if steps.len() == 0 {
        true
    } else {
        &&& !m.contains_key(steps[0].0)
        &&& all_fresh(m.insert(steps[0].0, steps[0].1), steps.skip(1))
    }
}

/// A mapping entry present before a fresh batch survives it untouched, and no
/// step reuses its code.
pub proof fn lemma_steps_preserve(m: Mapping, steps: Seq<(Seq<char>, Seq<char>)>, k: Seq<char>)
    requires
        all_fresh(m, steps),
        m.contains_key(k),
    ensures
        apply_steps(m, steps).contains_key(k),
        apply_steps(m, steps)[k] == m[k],
        forall|j: int| 0 <= j < steps.len() ==> steps[j].0 != k,
    decreases steps.len(),
{
    if steps.len() > 0 {
        let m1 = m.insert(steps[0].0, steps[0].1);
        lemma_steps_preserve(m1, steps.skip(1), k);
        assert forall|j: int| 0 <= j < steps.len() implies steps[j].0 != k by {
            if j > 0 {
                assert(steps.skip(1)[j - 1] == steps[j]);
            }
        }
    }
}

/// No lost writes: a batch of accepted shrinks yields pairwise distinct
/// codes, each still resolving to its own URL once the batch is done.
pub proof fn lemma_batch_shrinks(m: Mapping, steps: Seq<(Seq<char>, Seq<char>)>)
    requires
        all_fresh(m, steps),
    ensures
        forall|i: int, j: int| 0 <= i < j < steps.len() ==> steps[i].0 != steps[j].0,
        forall|i: int|
            0 <= i < steps.len() ==> apply_steps(m, steps).contains_key(steps[i].0)
                && apply_steps(m, steps)[steps[i].0] == steps[i].1,
    decreases steps.len(),
{
    if steps.len() > 0 {
        let m1 = m.insert(steps[0].0, steps[0].1);
        lemma_steps_preserve(m1, steps.skip(1), steps[0].0);
        lemma_batch_shrinks(m1, steps.skip(1));
        assert forall|i: int, j: int| 0 <= i < j < steps.len() implies steps[i].0
            != steps[j].0 by {
            if i > 0 {
                assert(steps.skip(1)[i - 1] == steps[i]);
                assert(steps.skip(1)[j - 1] == steps[j]);
            } else {
                assert(steps.skip(1)[j - 1] == steps[j]);
            }
        }
        assert forall|i: int| 0 <= i < steps.len() implies apply_steps(m, steps).contains_key(
            steps[i].0,
        ) && apply_steps(m, steps)[steps[i].0] == steps[i].1 by {
            if i > 0 {
                assert(steps.skip(1)[i - 1] == steps[i]);
            }
        }
    }
}

} // verus!
