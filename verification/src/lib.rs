//! Core of a URL shortener: code generation, durable code-to-URL storage with
//! interchangeable backends, a cache-aside decorator, alias validation, and the
//! orchestration that ties them together.

use vstd::prelude::*;

pub mod app;
pub mod error;
pub mod generators;
pub mod shrinkers;
pub mod slug;
pub mod storage;
pub mod urls;
pub mod validator;

use crate::storage::Mapping;
use crate::storage::fresh_insert;
use crate::storage::load_post;
use crate::storage::store_post;
use crate::urls::Url;
use crate::validator::Code;

verus! {

/// The orchestrator's interface: create codes for URLs and resolve them back.
pub trait Shrinker: Sized {
    /// The authoritative mapping reachable through this shrinker.
    spec fn mapping(&self) -> Mapping;

    /// The shrinker's well-formedness.
    spec fn inv(&self) -> bool;

    /// Create a code for `url` and persist the pair. On success the code was
    /// free and now resolves to `url`; on any failure the mapping is
    /// untouched.
    fn shrink(&mut self, url: Url) -> (r: Result<Code, crate::error::Internal>)
        requires
            old(self).inv(),
        ensures
            final(self).inv(),
            match r {
                Ok(code) => fresh_insert(old(self).mapping(), final(self).mapping(), code@, url@),
                Err(_) => final(self).mapping() == old(self).mapping(),
            },
    ;

    /// Resolve a code back to its URL. The mapping never changes, though a
    /// cache underneath may warm up.
    fn expand(&mut self, code: &Code) -> (r: Result<Url, crate::error::Load>)
        requires
            old(self).inv(),
        ensures
            final(self).inv(),
            final(self).mapping() == old(self).mapping(),
            load_post(old(self).mapping(), code@, r),
    ;

    /// Persist `url` under a caller-chosen code: one store, no retry, a
    /// duplicate surfaces directly.
    fn store_custom(&mut self, url: Url, code: &Code) -> (r: Result<(), crate::error::Storage>)
        requires
            old(self).inv(),
        ensures
            final(self).inv(),
            store_post(old(self).mapping(), final(self).mapping(), code@, url@, r),
    ;
}

/// A candidate-code source. Generation never consults storage: collision
/// handling belongs to the orchestrator, so generators stay swappable.
pub(crate) trait Generator {
    fn generate(&mut self, url: &Url) -> (code: Code)
        ensures
            code@.len() > 0,
    ;
}

/// A durable unique mapping of code to URL. Every backend satisfies this one
/// contract, so backends and decorators compose interchangeably.
pub trait Storage: Sized {
    /// The mapping this storage holds. The defaults here are for backends
    /// outside the verifier's reach, which cannot spell ghost items; every
    /// verified implementation overrides both.
    open spec fn mapping(&self) -> Mapping {
        Map::empty()
    }

    /// The storage's well-formedness.
    open spec fn inv(&self) -> bool {
        true
    }

    /// Atomic unique-insert: under stores of the same code, exactly one
    /// succeeds and the rest observe a duplicate.
    fn store(&mut self, url: Url, code: &Code) -> (r: Result<(), crate::error::Storage>)
        requires
            old(self).inv(),
        ensures
            final(self).inv(),
            store_post(old(self).mapping(), final(self).mapping(), code@, url@, r),
    ;

    /// Look the code up. Loading never changes the mapping.
    fn load(&mut self, code: &Code) -> (r: Result<Url, crate::error::Load>)
        requires
            old(self).inv(),
        ensures
            final(self).inv(),
            final(self).mapping() == old(self).mapping(),
            load_post(old(self).mapping(), code@, r),
    ;
}

} // verus!
