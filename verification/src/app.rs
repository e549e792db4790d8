//! The orchestrator: a generator and a storage (optionally cache-aside
//! wrapped) composed into one shrinker, plus the request-level operations
//! built on it.

use vstd::prelude::*;

use crate::Generator;
use crate::Shrinker;
use crate::Storage;
use crate::storage::Cache;
use crate::storage::Cached;
use crate::storage::Mapping;
use crate::storage::fresh_insert;
use crate::urls::Url;
use crate::validator::Code;
use crate::validator::Validate;
use crate::validator::Validator;

verus! {

/// How many candidate codes one shrink request will probe before giving up.
pub const MAX_PROBES: usize = 64;

/// A code generator and a storage working as one shrinker.
pub struct App<G, S> {
    pub urls: S,
    pub codes: G,
}

impl<G, S> App<G, S> {
    /// Compose an app from its parts.
    pub fn new(urls: S, codes: G) -> (app: Self)
        ensures
            app.urls == urls,
            app.codes == codes,
    {
        App { urls, codes }
    }
}

impl<G, S: Storage> App<G, S> {
    /// Put a cache in front of the storage: reads will go through it, writes
    /// will keep going to the backing storage alone.
    pub fn with_cache<C: Cache>(self, cache: C) -> (app: App<G, Cached<C, S>>)
        ensures
            app.urls.cache == cache,
            app.urls.storage == self.urls,
            app.codes == self.codes,
    {
        App { urls: Cached { cache, storage: self.urls }, codes: self.codes }
    }
}

impl<G: Generator, S: Storage> Shrinker for App<G, S> {
    open spec fn mapping(&self) -> Mapping {
        self.urls.mapping()
    }

    open spec fn inv(&self) -> bool {
        self.urls.inv()
    }

    fn shrink(&mut self, url: Url) -> (r: Result<Code, crate::error::Internal>) {
        let ghost m0 = self.urls.mapping();
        let mut code = self.codes.generate(&url);
        let mut probes: usize = 1;
        // On a collision, generate a new code until a probe finds a free
        // one; a generator whose candidates keep colliding gives up after a
        // bounded number of probes rather than spinning forever. A probe
        // failure is returned as the request's failure. Within one
        // orchestration the storage contract rules a duplicate out after a
        // fresh probe; concurrent orchestrations must share the app behind
        // an exclusive lock, or the final store may still observe one.
        loop
            invariant
                self.urls.inv(),
                self.urls.mapping() == m0,
                m0 == old(self).urls.mapping(),
                probes <= MAX_PROBES,
            ensures
                self.urls.inv(),
                self.urls.mapping() == m0,
                !self.urls.mapping().contains_key(code@),
            decreases MAX_PROBES - probes,
        {
            match self.urls.load(&code) {
                Err(crate::error::Load::NotFound) => { break; },
                Ok(_hit) => {
                    if probes == MAX_PROBES {
                        return Err(crate::error::Internal(
                            "no free code found after repeated collisions".to_owned(),
                        ));
                    }
                    code = self.codes.generate(&url);
                    probes = probes + 1;
                },
                Err(crate::error::Load::Internal(msg)) => {
                    return Err(crate::error::Internal(msg));
                },
                Err(crate::error::Load::BadAlias) => {
                    // the storage contract never reports a bad alias
                    return vstd::pervasive::unreached();
                },
            }
        }
        match self.urls.store(url, &code) {
            Ok(()) => Ok(code),
            Err(e) => Err(crate::error::Internal::from_storage(e)),
        }
    }

    fn expand(&mut self, code: &Code) -> (r: Result<Url, crate::error::Load>) {
        self.urls.load(code)
    }

    fn store_custom(&mut self, url: Url, code: &Code) -> (r: Result<(), crate::error::Storage>) {
        self.urls.store(url, code)
    }
}

/// Persist `url` under a caller-chosen alias: validate the alias, refuse a
/// bad one, store once with no retry, and surface a duplicate directly.
pub fn custom_code<S: Shrinker, V: Validate>(
    app: &mut S,
    validator: &Validator<V>,
    url: Url,
    alias: String,
) -> (r: Result<Code, crate::error::Storage>)
    requires
        old(app).inv(),
    ensures
        final(app).inv(),
        match r {
            Ok(code) => code@ == alias@ && validator.grammar().accepts(alias@) && fresh_insert(
                old(app).mapping(),
                final(app).mapping(),
                alias@,
                url@,
            ),
            Err(e) => {
                &&& final(app).mapping() == old(app).mapping()
                &&& (e is BadAlias <==> !validator.grammar().accepts(alias@))
                &&& (e is Duplicate ==> old(app).mapping().contains_key(alias@))
            },
        },
{
    match validator.validate(alias) {
        Some(code) => match app.store_custom(url, &code) {
            Ok(()) => Ok(code),
            Err(e) => Err(e),
        },
        None => Err(crate::error::Storage::BadAlias),
    }
}

/// Resolve a code for a redirect: validate its syntax, refuse a bad one,
/// and delegate to the storage; absence and failures propagate unchanged.
pub fn redirect<S: Shrinker, V: Validate>(
    app: &mut S,
    validator: &Validator<V>,
    code: String,
) -> (r: Result<Url, crate::error::Load>)
    requires
        old(app).inv(),
    ensures
        final(app).inv(),
        final(app).mapping() == old(app).mapping(),
        match r {
            Ok(u) => validator.grammar().accepts(code@) && old(app).mapping().contains_key(code@)
                && u@ == old(app).mapping()[code@],
            Err(e) => {
                &&& (e is BadAlias <==> !validator.grammar().accepts(code@))
                &&& (e is NotFound ==> !old(app).mapping().contains_key(code@))
            },
        },
{
    match validator.validate(code) {
        Some(c) => app.expand(&c),
        None => Err(crate::error::Load::BadAlias),
    }
}

} // verus!
