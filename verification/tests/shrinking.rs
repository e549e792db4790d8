use shrink::Shrinker;
use shrink::Storage;
use shrink::app::App;
use shrink::app::custom_code;
use shrink::app::redirect;
use shrink::error;
use shrink::generators::Counter;
use shrink::generators::RB62;
use shrink::shrinkers::Basic;
use shrink::storage::Memory;
use shrink::urls::Url;
use shrink::validator::Alnum;
use shrink::validator::Validator;

fn url(s: &str) -> Url {
    Url::parse(s).expect("a parseable URL")
}

#[test]
fn url_parse_normalizes() {
    // parsing is not the identity: the serialization gains the root path
    assert_eq!(url("http://example.com").as_str(), "http://example.com/");
    assert!(Url::parse("not a url").is_none());
    assert!(Url::parse("/relative/path").is_none());
}

#[test]
fn round_trip_with_counter_and_memory() {
    let mut app = App::new(Memory::default(), Counter::default());
    let u = url("http://example.com/a");
    let code = app.shrink(u.clone()).expect("shrink succeeds");
    let back = app.expand(&code).expect("expand succeeds");
    assert_eq!(back.as_str(), u.as_str());
}

#[test]
fn round_trip_with_random_codes() {
    let mut app = App::new(Memory::default(), RB62::default());
    let u = url("http://example.com/b");
    let code = app.shrink(u.clone()).expect("shrink succeeds");
    assert_eq!(code.as_str().len(), 7);
    assert!(code.as_str().chars().all(|c| c.is_ascii_alphanumeric()));
    let back = app.expand(&code).expect("expand succeeds");
    assert_eq!(back.as_str(), u.as_str());
}

#[test]
fn counter_codes_are_decimal_and_sequential() {
    let mut app = App::new(Memory::default(), Counter::default());
    let c1 = app.shrink(url("http://example.com/1")).unwrap();
    let c2 = app.shrink(url("http://example.com/2")).unwrap();
    assert_eq!(c1.as_str(), "1");
    assert_eq!(c2.as_str(), "2");
}

#[test]
fn distinct_urls_get_distinct_codes() {
    let mut app = App::new(Memory::default(), RB62::default());
    let c1 = app.shrink(url("http://one.example/")).unwrap();
    let c2 = app.shrink(url("http://two.example/")).unwrap();
    assert_ne!(c1.as_str(), c2.as_str());
}

#[test]
fn batch_of_shrinks_loses_no_write() {
    let mut app = App::new(Memory::default(), RB62::default());
    let mut pairs = Vec::new();
    for i in 0..20 {
        let u = url(&format!("http://example.com/page/{}", i));
        let code = app.shrink(u.clone()).expect("shrink succeeds");
        pairs.push((code, u));
    }
    for i in 0..pairs.len() {
        for j in 0..pairs.len() {
            if i != j {
                assert_ne!(pairs[i].0.as_str(), pairs[j].0.as_str());
            }
        }
    }
    for (code, u) in &pairs {
        let back = app.expand(code).expect("every mapping is still resolvable");
        assert_eq!(back.as_str(), u.as_str());
    }
}

#[test]
fn shrink_retries_past_a_collision() {
    let mut app = App::new(Memory::default(), Counter::default());
    let v: Validator<Alnum> = Validator::new(Alnum);
    let one = v.validate("1".to_string()).unwrap();
    app.store_custom(url("http://example.com/taken"), &one).expect("code 1 is free");
    // the counter's first candidate is "1", which is taken: the orchestrator
    // must discard it and store under the next one
    let code = app.shrink(url("http://example.com/fresh")).expect("shrink retries");
    assert_eq!(code.as_str(), "2");
    let back = app.expand(&code).expect("the fresh mapping resolves");
    assert_eq!(back.as_str(), "http://example.com/fresh");
}

#[test]
fn expand_unknown_code_is_not_found() {
    let mut app = App::new(Memory::default(), Counter::default());
    let v: Validator<Alnum> = Validator::new(Alnum);
    let code = v.validate("missing".to_string()).unwrap();
    match app.expand(&code) {
        Err(error::Load::NotFound) => {}
        other => panic!("expected NotFound, got {:?}", other),
    }
}

#[test]
fn custom_alias_duplicate_is_rejected_and_first_mapping_stays() {
    let mut app = App::new(Memory::default(), RB62::default());
    let v: Validator<Alnum> = Validator::new(Alnum);
    let u = url("http://example.com/first");
    let u2 = url("http://example.com/second");
    custom_code(&mut app, &v, u.clone(), "abc".to_string()).expect("first store succeeds");
    match custom_code(&mut app, &v, u2, "abc".to_string()) {
        Err(error::Storage::Duplicate) => {}
        other => panic!("expected Duplicate, got {:?}", other),
    }
    let back = redirect(&mut app, &v, "abc".to_string()).expect("abc still resolves");
    assert_eq!(back.as_str(), u.as_str());
}

#[test]
fn custom_alias_failing_grammar_is_a_bad_alias() {
    let mut app = App::new(Memory::default(), RB62::default());
    let v: Validator<Alnum> = Validator::new(Alnum);
    match custom_code(&mut app, &v, url("http://example.com/"), "not valid".to_string()) {
        Err(error::Storage::BadAlias) => {}
        other => panic!("expected BadAlias, got {:?}", other),
    }
}

#[test]
fn redirect_validates_before_lookup() {
    let mut app = App::new(Memory::default(), RB62::default());
    let v: Validator<Alnum> = Validator::new(Alnum);
    match redirect(&mut app, &v, "/code".to_string()) {
        Err(error::Load::BadAlias) => {}
        other => panic!("expected BadAlias, got {:?}", other),
    }
    match redirect(&mut app, &v, "gone".to_string()) {
        Err(error::Load::NotFound) => {}
        other => panic!("expected NotFound, got {:?}", other),
    }
}

#[test]
fn basic_shrinker_stores_and_resolves() {
    let mut basic: Basic<Counter, Memory> = Basic::default();
    let u = url("http://example.com/basic");
    let code = basic.shrink(u.clone()).expect("shrink succeeds");
    let back = basic.expand(&code).expect("expand succeeds");
    assert_eq!(back.as_str(), u.as_str());
}

#[test]
fn basic_shrinker_folds_duplicate_into_internal() {
    let mut basic = Basic::new(Memory::default(), Counter::default());
    let v: Validator<Alnum> = Validator::new(Alnum);
    let one = v.validate("1".to_string()).unwrap();
    basic.store_custom(url("http://example.com/taken"), &one).expect("code 1 is free");
    // the counter's first candidate is "1", which is now taken, and Basic
    // never retries
    match basic.shrink(url("http://example.com/collides")) {
        Err(e) => assert_eq!(e.message(), "duplicate entry"),
        Ok(code) => panic!("expected a collision, got code {}", code.as_str()),
    }
}

#[test]
fn store_errors_map_to_http_statuses() {
    assert_eq!(error::Storage::Duplicate.status_code(), 409);
    assert_eq!(error::Storage::BadAlias.status_code(), 400);
    assert_eq!(error::Storage::Internal("x".to_string()).status_code(), 500);
    assert_eq!(error::Load::NotFound.status_code(), 404);
    assert_eq!(error::Load::BadAlias.status_code(), 400);
    assert_eq!(error::Load::Internal("x".to_string()).status_code(), 500);
    assert_eq!(error::Internal::from_storage(error::Storage::Duplicate).status_code(), 500);
}

#[test]
fn error_messages_name_their_condition() {
    assert_eq!(error::Storage::Duplicate.message(), "duplicate entry");
    assert_eq!(error::Storage::Internal("pool died".to_string()).message(), "internal storage error: pool died");
    assert_eq!(error::Load::NotFound.message(), "not found");
    assert_eq!(error::Load::Internal("pool died".to_string()).message(), "internal load error: pool died");
    assert_eq!(error::Internal::from_storage(error::Storage::BadAlias).message(), "bad alias");
    assert_eq!(shrink::storage::AlreadyExists.message(), "the code already exists");
    assert_eq!(shrink::storage::NotFound.message(), "the code was not found");
    assert_eq!(shrink::storage::InternalError("x".to_string()).message(), "internal error: x");
}
