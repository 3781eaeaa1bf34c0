use crates_mirror::download::Download;
use crates_mirror::download::HeaderValue;
use crates_mirror::download::validate_headers;
use crates_mirror::error::Error;
use crates_mirror::flow::create_or_join;
use crates_mirror::flow::sync_response;
use crates_mirror::registry::InFlightRegistry;
use crates_mirror::req::CrateReq;

fn req(name: &str, version: &str) -> CrateReq {
    CrateReq::new(name.to_string(), version.to_string())
}

fn dl(len: usize) -> Download {
    Download::new("application/x-tar".to_string(), len)
}

#[test]
fn second_client_joins_first_fetch() {
    let mut registry = InFlightRegistry::new();
    let r = req("serde", "1.0.0");
    let created_a = registry.get_or_create(&r, dl(100));
    let created_b = registry.get_or_create(&r, dl(100));
    assert!(created_a);
    assert!(!created_b);
    assert!(registry.contains(&r));
}

#[test]
fn distinct_requests_each_create() {
    let mut registry = InFlightRegistry::new();
    let a = req("serde", "1.0.0");
    let b = req("serde", "2.0.0");
    let c = req("tokio", "1.0.0");
    assert!(registry.get_or_create(&a, dl(1)));
    assert!(registry.get_or_create(&b, dl(2)));
    assert!(registry.get_or_create(&c, dl(3)));
    assert!(!registry.get_or_create(&a, dl(1)));
    assert!(!registry.get_or_create(&b, dl(2)));
    assert!(!registry.get_or_create(&c, dl(3)));
}

#[test]
fn find_returns_the_inserted_download() {
    let mut registry = InFlightRegistry::new();
    let r = req("bytes", "1.2.1");
    registry.get_or_create(&r, dl(42));
    let found = registry.find(&r).expect("entry must be present");
    assert_eq!(found.content_length, 42);
    assert_eq!(found.content_type, "application/x-tar");
    assert!(registry.find(&req("bytes", "9.9.9")).is_none());
}

#[test]
fn remove_is_idempotent() {
    let mut registry = InFlightRegistry::new();
    let r = req("serde", "1.0.0");
    registry.get_or_create(&r, dl(1));
    registry.remove(&r);
    assert!(!registry.contains(&r));
    registry.remove(&r);
    assert!(!registry.contains(&r));
}

#[test]
fn removal_allows_a_fresh_fetch() {
    let mut registry = InFlightRegistry::new();
    let r = req("serde", "1.0.0");
    assert!(registry.get_or_create(&r, dl(1)));
    registry.remove(&r);
    assert!(registry.get_or_create(&r, dl(1)));
}

#[test]
fn upstream_miss_leaves_no_entry_and_responds_not_found() {
    let mut registry = InFlightRegistry::new();
    let r = req("nonexistent", "0.0.0");
    let outcome = create_or_join(&mut registry, &r, 404, None, HeaderValue::Missing);
    assert_eq!(outcome, Err(Error::FetchFail));
    assert!(!registry.contains(&r));
    let resp = sync_response(false);
    assert_eq!(resp.status, 404);
    assert!(resp.content_type.is_none());
}

#[test]
fn create_or_join_records_the_declared_download() {
    let mut registry = InFlightRegistry::new();
    let r = req("serde", "1.0.0");
    let created = create_or_join(
        &mut registry,
        &r,
        200,
        Some(100),
        HeaderValue::Text("application/x-tar".to_string()),
    );
    assert_eq!(created, Ok(true));
    let entry = registry.find(&r).expect("entry must be present");
    assert_eq!(entry.content_length, 100);
    assert_eq!(entry.content_type, "application/x-tar");
    assert!(entry.buffer.is_empty());
    assert!(!entry.done);
    let joined = create_or_join(
        &mut registry,
        &r,
        200,
        Some(100),
        HeaderValue::Text("application/x-tar".to_string()),
    );
    assert_eq!(joined, Ok(false));
}

#[test]
fn header_checks_map_to_their_errors() {
    assert_eq!(
        validate_headers(500, Some(5), HeaderValue::Text("t".to_string())),
        Err(Error::FetchFail)
    );
    assert_eq!(validate_headers(200, None, HeaderValue::Text("t".to_string())), Err(Error::MissingField));
    assert_eq!(validate_headers(200, Some(5), HeaderValue::Missing), Err(Error::MissingField));
    assert_eq!(validate_headers(200, Some(5), HeaderValue::NotText), Err(Error::HeaderDecode));
    let ok = validate_headers(200, Some(100), HeaderValue::Text("application/x-tar".to_string()));
    assert_eq!(ok, Ok((100, "application/x-tar".to_string())));
}

#[test]
fn error_messages_name_each_kind() {
    assert_eq!(Error::FetchFail.message(), "fail to fetch");
    assert_eq!(Error::MissingField.message(), "missing field");
    assert_eq!(Error::HeaderDecode.message(), "header is not text");
    assert_eq!(Error::Json.message(), "malformed json");
    assert_eq!(Error::Git.message(), "git operation failed");
    assert_eq!(Error::SymbolicReference.message(), "symbolic reference not allowed");
    assert_eq!(Error::BareRepo.message(), "repository has no worktree");
}
