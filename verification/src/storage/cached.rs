//! The cache-aside decorator: a cache in front of a backing store, itself
//! satisfying the storage contract so callers need not care.

use vstd::prelude::*;

use crate::Storage;
use crate::storage::Mapping;
use crate::urls::Url;
use crate::validator::Code;

verus! {

/// A constrained, expiring store used as a fast front for one backend.
/// Entries may vanish at any moment, so absence carries no meaning; a cache
/// is never the sole source for a negative answer.
pub trait Cache {
    /// The entries currently held. The defaults here are for caches outside
    /// the verifier's reach, which cannot spell ghost items; every verified
    /// implementation overrides both.
    open spec fn entries(&self) -> Mapping {
        Map::empty()
    }

    /// The cache's well-formedness.
    open spec fn inv(&self) -> bool {
        true
    }

    /// Look `code` up. A hit returns exactly what was cached; a miss says
    /// nothing, since entries expire. Looking up never invents entries.
    fn get(&mut self, code: &Code) -> (r: Result<Url, crate::error::Load>)
        requires
            old(self).inv(),
        ensures
            final(self).inv(),
            final(self).entries().submap_of(old(self).entries()),
            r matches Ok(u) ==> old(self).entries().contains_key(code@) && u@ == old(
                self,
            ).entries()[code@],
    ;

    /// Offer the pair to the cache, best effort: afterwards every entry is
    /// either one that was already there, unchanged, or the offered pair.
    fn set(&mut self, url: &Url, code: &Code) -> (r: Result<(), crate::error::Storage>)
        requires
            old(self).inv(),
        ensures
            final(self).inv(),
            forall|k: Seq<char>|
                #[trigger] final(self).entries().contains_key(k) ==> {
                    ||| (old(self).entries().contains_key(k) && final(self).entries()[k] == old(
                        self,
                    ).entries()[k])
                    ||| (k == code@ && final(self).entries()[k] == url@)
                },
    ;
}

/// What one agreeing entry of a submap gives.
proof fn lemma_submap_point(c: Mapping, m: Mapping, k: Seq<char>)
    requires
        c.submap_of(m),
        c.contains_key(k),
    ensures
        m.contains_key(k),
        c[k] == m[k],
{
    assert(c.dom().contains(k));
    assert(m.dom().contains(k));
    assert(c[k] == m[k]);
}

/// Agreement on every key makes a submap.
proof fn lemma_submap(c: Mapping, m: Mapping)
    requires
        forall|k: Seq<char>| #[trigger]
            c.contains_key(k) ==> m.contains_key(k) && c[k] == m[k],
    ensures
        c.submap_of(m),
{
    assert forall|k: Seq<char>| #[trigger] c.dom().contains(k) implies m.dom().contains(k) && c[k]
        == m[k] by {
        assert(c.contains_key(k));
        assert(m.contains_key(k));
    }
}

/// A cache and a backing store composed into one storage. Reads go through
/// the cache and populate it on a miss; writes go to the backing store only,
/// so a fresh mapping is cache-cold until first read.
pub struct Cached<C: Cache, S: Storage> {
    pub cache: C,
    pub storage: S,
}

impl<C: Cache, S: Storage> Storage for Cached<C, S> {
    /// The backing store alone is authoritative.
    open spec fn mapping(&self) -> Mapping {
        self.storage.mapping()
    }

    /// Both parts are well-formed and the cache is coherent: it holds nothing
    /// the backing store does not confirm.
    open spec fn inv(&self) -> bool {
        &&& self.storage.inv()
        &&& self.cache.inv()
        &&& self.cache.entries().submap_of(self.storage.mapping())
    }

    fn store(&mut self, url: Url, code: &Code) -> (r: Result<(), crate::error::Storage>)
        ensures
            // writes go to the backing store only: the cache is untouched,
            // so a new mapping stays cache-cold until its first read
            final(self).cache == old(self).cache,
    {
        let ghost cache0 = self.cache.entries();
        let ghost mapping0 = self.storage.mapping();
        let r = self.storage.store(url, code);
        proof {
            // the cache was untouched; the mapping at most grew by a pair
            // whose code no coherent cache entry can carry
            assert forall|k: Seq<char>| #[trigger]
                self.cache.entries().contains_key(k) implies self.storage.mapping().contains_key(k)
                && self.cache.entries()[k] == self.storage.mapping()[k] by {
                lemma_submap_point(cache0, mapping0, k);
            }
            lemma_submap(self.cache.entries(), self.storage.mapping());
        }
        r
    }

    fn load(&mut self, code: &Code) -> (r: Result<Url, crate::error::Load>) {
        let ghost cache0 = self.cache.entries();
        let ghost mapping0 = self.storage.mapping();
        match self.cache.get(code) {
            Ok(url) => {
                proof {
                    // a hit is as good as the backing store: coherence says so
                    lemma_submap_point(cache0, mapping0, code@);
                    assert forall|k: Seq<char>| #[trigger]
                        self.cache.entries().contains_key(k) implies self.storage.mapping(
                    ).contains_key(k) && self.cache.entries()[k] == self.storage.mapping()[k] by {
                        lemma_submap_point(self.cache.entries(), cache0, k);
                        lemma_submap_point(cache0, mapping0, k);
                    }
                    lemma_submap(self.cache.entries(), self.storage.mapping());
                }
                Ok(url)
            },
            Err(_) => {
                // a cache miss or cache error is never authoritative: ask the
                // backing store
                match self.storage.load(code) {
                    Ok(url) => {
                        let ghost cache1 = self.cache.entries();
                        // populate the cache; a failure to do so must never
                        // surface as a failure of the load
                        let _outcome = self.cache.set(&url, code);
                        proof {
                            assert forall|k: Seq<char>| #[trigger]
                                self.cache.entries().contains_key(k) implies self.storage.mapping(
                            ).contains_key(k) && self.cache.entries()[k]
                                == self.storage.mapping()[k] by {
                                if !(k == code@ && self.cache.entries()[k] == url@) {
                                    lemma_submap_point(cache1, cache0, k);
                                    lemma_submap_point(cache0, mapping0, k);
                                }
                            }
                            lemma_submap(self.cache.entries(), self.storage.mapping());
                        }
                        Ok(url)
                    },
                    Err(e) => {
                        proof {
                            assert forall|k: Seq<char>| #[trigger]
                                self.cache.entries().contains_key(k) implies self.storage.mapping(
                            ).contains_key(k) && self.cache.entries()[k]
                                == self.storage.mapping()[k] by {
                                lemma_submap_point(self.cache.entries(), cache0, k);
                                lemma_submap_point(cache0, mapping0, k);
                            }
                            lemma_submap(self.cache.entries(), self.storage.mapping());
                        }
                        Err(e)
                    },
                }
            },
        }
    }
}

} // verus!
