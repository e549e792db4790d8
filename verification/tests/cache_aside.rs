use shrink::Storage;
use shrink::error;
use shrink::storage::Cache;
use shrink::storage::Cached;
use shrink::storage::Memory;
use shrink::urls::Url;
use shrink::validator::Alnum;
use shrink::validator::Code;
use shrink::validator::Validator;

fn url(s: &str) -> Url {
    Url::parse(s).expect("a parseable URL")
}

fn code(s: &str) -> Code {
    let v: Validator<Alnum> = Validator::new(Alnum);
    v.validate(s.to_string()).expect("an alphanumeric code")
}

/// A never-expiring test cache: a plain list of code/URL pairs.
#[derive(Default)]
struct MapCache {
    entries: Vec<(String, String)>,
    gets: usize,
    sets: usize,
}

impl Cache for MapCache {
    fn get(&mut self, code: &Code) -> Result<Url, error::Load> {
        self.gets += 1;
        for (k, v) in &self.entries {
            if k == code.as_str() {
                return Url::parse(v).ok_or(error::Load::NotFound);
            }
        }
        Err(error::Load::NotFound)
    }

    fn set(&mut self, u: &Url, code: &Code) -> Result<(), error::Storage> {
        self.sets += 1;
        self.entries.push((code.as_str().to_string(), u.as_str().to_string()));
        Ok(())
    }
}

/// A cache that refuses every operation.
#[derive(Default)]
struct BrokenCache;

impl Cache for BrokenCache {
    fn get(&mut self, _code: &Code) -> Result<Url, error::Load> {
        Err(error::Load::Internal("cache down".to_string()))
    }

    fn set(&mut self, _u: &Url, _code: &Code) -> Result<(), error::Storage> {
        Err(error::Storage::Internal("cache down".to_string()))
    }
}

/// A backing store that can be switched into a failing state, simulating a
/// transient outage.
struct FlakyMemory {
    inner: Memory,
    down: bool,
}

impl Storage for FlakyMemory {
    fn store(&mut self, u: Url, code: &Code) -> Result<(), error::Storage> {
        if self.down {
            return Err(error::Storage::Internal("backend down".to_string()));
        }
        self.inner.store(u, code)
    }

    fn load(&mut self, code: &Code) -> Result<Url, error::Load> {
        if self.down {
            return Err(error::Load::Internal("backend down".to_string()));
        }
        self.inner.load(code)
    }
}

#[test]
fn cache_hit_survives_a_backend_outage() {
    let mut backing = FlakyMemory { inner: Memory::default(), down: false };
    backing.store(url("http://example.com"), &code("x1")).expect("seeding succeeds");
    let mut cached = Cached { cache: MapCache::default(), storage: backing };

    // first read comes from the backing store and populates the cache
    let first = cached.load(&code("x1")).expect("first load succeeds");
    assert_eq!(first.as_str(), "http://example.com/");
    assert_eq!(cached.cache.sets, 1);

    // the backend goes down; the second read is served by the cache
    cached.storage.down = true;
    let second = cached.load(&code("x1")).expect("second load is a cache hit");
    assert_eq!(second.as_str(), "http://example.com/");
}

#[test]
fn negative_results_come_from_the_backing_store_alone() {
    let mut plain = Memory::default();
    match plain.load(&code("missing")) {
        Err(error::Load::NotFound) => {}
        other => panic!("expected NotFound, got {:?}", other),
    }

    let mut cached = Cached { cache: MapCache::default(), storage: Memory::default() };
    match cached.load(&code("missing")) {
        Err(error::Load::NotFound) => {}
        other => panic!("expected NotFound, got {:?}", other),
    }
}

#[test]
fn writes_bypass_the_cache() {
    let mut cached = Cached { cache: MapCache::default(), storage: Memory::default() };
    cached.store(url("http://example.com/cold"), &code("c1")).expect("store succeeds");
    // a freshly stored mapping is cache-cold until the first read
    assert_eq!(cached.cache.sets, 0);
    let back = cached.load(&code("c1")).expect("load falls back to the store");
    assert_eq!(back.as_str(), "http://example.com/cold");
    assert_eq!(cached.cache.sets, 1);
}

#[test]
fn cache_failures_never_surface() {
    let mut cached = Cached { cache: BrokenCache, storage: Memory::default() };
    cached.store(url("http://example.com/ok"), &code("ok")).expect("store succeeds");
    // the cache errors on get and on set; the load must still succeed
    let back = cached.load(&code("ok")).expect("load ignores the broken cache");
    assert_eq!(back.as_str(), "http://example.com/ok");
}

#[test]
fn duplicate_store_through_the_decorator_keeps_the_first_mapping() {
    let mut cached = Cached { cache: MapCache::default(), storage: Memory::default() };
    cached.store(url("http://example.com/first"), &code("dup")).expect("first store succeeds");
    match cached.store(url("http://example.com/second"), &code("dup")) {
        Err(error::Storage::Duplicate) => {}
        other => panic!("expected Duplicate, got {:?}", other),
    }
    let back = cached.load(&code("dup")).expect("dup still resolves");
    assert_eq!(back.as_str(), "http://example.com/first");
}
