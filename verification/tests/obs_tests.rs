use crates_mirror::codec::format_gmt;
use crates_mirror::codec::parse_rfc3339_secs;
use crates_mirror::credentials::CredentialsCache;
use crates_mirror::credentials::ObsCredentials;
use crates_mirror::credentials::ObsError;
use crates_mirror::credentials::credentials_from_response;
use crates_mirror::obs::Bucket;
use crates_mirror::obs::Ssl;
use crates_mirror::obs::base_url;
use crates_mirror::obs::signature;

fn creds(token: Option<&str>) -> ObsCredentials {
    ObsCredentials::new(
        "SECRET-REDACTED".to_string(),
        "secretkey".to_string(),
        token.map(|t| t.to_string()),
        1000,
    )
}

#[test]
fn base_url_follows_the_ssl_choice() {
    assert_eq!(base_url("obs.example.com", Ssl::Yes), "https://obs.example.com/");
    assert_eq!(base_url("obs.example.com", Ssl::No), "http://obs.example.com/");
}

#[test]
fn bucket_addresses_and_description() {
    let b = Bucket::new("archives", "obs.example.com", Ssl::Yes);
    assert_eq!(b.name, "archives");
    assert_eq!(b.base_url, "https://obs.example.com/");
    assert_eq!(b.host, "archives.obs.example.com");
    assert_eq!(
        b.describe(),
        "Bucket(name=archives, base_url=https://obs.example.com/)"
    );
}

#[test]
fn signature_is_base64_of_hmac_sha1() {
    // A published HMAC-SHA-1 test vector, Base64-encoded.
    let sig = signature("The quick brown fox jumps over the lazy dog", "key");
    assert_eq!(sig, "3nybhbi3iqa8ino29wqQcBydtNk=");
}

#[test]
fn gmt_formatting_matches_the_header_style() {
    assert_eq!(format_gmt(0), "Thu, 01 Jan 1970 00:00:00 GMT");
    assert_eq!(format_gmt(784111777), "Sun, 06 Nov 1994 08:49:37 GMT");
}

#[test]
fn put_request_carries_every_signed_part() {
    let b = Bucket::new("archives", "obs.example.com", Ssl::Yes);
    let c = creds(Some("tok-123"));
    let r = b.put_request("serde/1.0.0", 100, 0, &c);
    assert_eq!(r.url, "https://obs.example.com/serde/1.0.0");
    assert_eq!(r.date, "Thu, 01 Jan 1970 00:00:00 GMT");
    assert_eq!(r.host, "archives.obs.example.com");
    assert_eq!(r.content_type, "application/octet-stream");
    assert_eq!(r.content_length, 100);
    assert_eq!(r.security_token.as_deref(), Some("tok-123"));
    let expected_sts = format!(
        "PUT\n\napplication/octet-stream\n{}\nx-obs-security-token:tok-123\n/archives/serde/1.0.0",
        r.date
    );
    let expected_auth = format!(
        "OBS {}:{}",
        c.access(),
        signature(&expected_sts, c.secret())
    );
    assert_eq!(r.authorization, expected_auth);
}

#[test]
fn put_request_without_token_has_no_token_header() {
    let b = Bucket::new("archives", "obs.example.com", Ssl::No);
    let c = creds(None);
    let r = b.put_request("k", 1, 0, &c);
    assert!(r.security_token.is_none());
    let expected_sts = format!("PUT\n\napplication/octet-stream\n{}\n/archives/k", r.date);
    assert_eq!(
        r.authorization,
        format!("OBS {}:{}", c.access(), signature(&expected_sts, c.secret()))
    );
}

#[test]
fn rfc3339_parsing_accepts_timestamps_and_rejects_noise() {
    assert_eq!(parse_rfc3339_secs("1970-01-01T00:00:20Z"), Some(20));
    assert_eq!(parse_rfc3339_secs("1970-01-01T01:00:00+01:00"), Some(0));
    assert_eq!(parse_rfc3339_secs("yesterday-ish"), None);
}

#[test]
fn iam_response_parses_into_credentials() {
    let body = "{\"credential\": {\"access\": \"ak\", \"secret\": \"sk\", \
                \"securitytoken\": \"tok\", \"expires_at\": \"1970-01-01T00:16:40Z\"}}";
    let c = credentials_from_response(body).expect("body must parse");
    assert_eq!(c.access(), "ak");
    assert_eq!(c.secret(), "sk");
    assert_eq!(c.security_token().as_deref(), Some("tok"));
    assert_eq!(c.expires_at(), 1000);
}

#[test]
fn iam_response_errors_name_their_cause() {
    let missing = "{\"credential\": {\"access\": \"ak\"}}";
    assert_eq!(credentials_from_response(missing).unwrap_err(), ObsError::Request);
    let bad_time = "{\"credential\": {\"access\": \"ak\", \"secret\": \"sk\", \
                    \"securitytoken\": \"tok\", \"expires_at\": \"soon\"}}";
    assert_eq!(credentials_from_response(bad_time).unwrap_err(), ObsError::TimeParse);
    assert_eq!(credentials_from_response("junk").unwrap_err(), ObsError::Request);
}

#[test]
fn credentials_expire_with_slack() {
    let c = creds(None);
    assert!(!c.credentials_are_expired(979));
    assert!(!c.credentials_are_expired(980));
    assert!(c.credentials_are_expired(981));
}

#[test]
fn cache_refreshes_only_when_empty_or_expired() {
    let mut cache = CredentialsCache::new();
    assert!(cache.needs_refresh(0));
    cache.store(creds(None));
    assert!(!cache.needs_refresh(0));
    assert!(!cache.needs_refresh(980));
    assert!(cache.needs_refresh(981));
}
