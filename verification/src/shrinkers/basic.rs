use vstd::prelude::*;

use crate::Generator;
use crate::Shrinker;
use crate::Storage;
use crate::storage::Mapping;
use crate::urls::Url;
use crate::validator::Code;

verus! {

/// The plainest shrinker: generate one candidate and store it, with no
/// collision probe. A collision simply fails the request, folded into an
/// internal error.
#[derive(Default)]
pub struct Basic<G, S> {
    pub uris: S,
    pub codes: G,
}

impl<G, S> Basic<G, S> {
    /// Compose a basic shrinker from its parts.
    pub fn new(uris: S, codes: G) -> (b: Self)
        ensures
            b.uris == uris,
            b.codes == codes,
    {
        Basic { uris, codes }
    }
}

impl<G: Generator, S: Storage> Shrinker for Basic<G, S> {
    open spec fn mapping(&self) -> Mapping {
        self.uris.mapping()
    }

    open spec fn inv(&self) -> bool {
        self.uris.inv()
    }

    fn shrink(&mut self, url: Url) -> (r: Result<Code, crate::error::Internal>) {
        let code = self.codes.generate(&url);
        match self.uris.store(url, &code) {
            Ok(()) => Ok(code),
            Err(e) => Err(crate::error::Internal::from_storage(e)),
        }
    }

    fn expand(&mut self, code: &Code) -> (r: Result<Url, crate::error::Load>) {
        self.uris.load(code)
    }

    fn store_custom(&mut self, url: Url, code: &Code) -> (r: Result<(), crate::error::Storage>) {
        self.uris.store(url, code)
    }
}

} // verus!
