use crates_mirror::download::Download;
use crates_mirror::download::HeaderValue;
use crates_mirror::download::validate_headers;
use crates_mirror::req::CrateReq;
use crates_mirror::tee::Tee;
use crates_mirror::tee::TeeNext;
use crates_mirror::upload::drive;
use crates_mirror::upload::RetryAction;
use crates_mirror::upload::UploadRetry;

fn tar_download(len: usize) -> Download {
    Download::new("application/x-tar".to_string(), len)
}

#[test]
fn tee_streams_in_source_order() {
    let mut d = tar_download(5);
    let mut t = Tee::attach(&d);
    d.append_chunk(&[1, 2, 3]);
    let first = t.take_new(&d);
    assert_eq!(first, vec![1, 2, 3]);
    assert_eq!(t.next_action(&d), TeeNext::Wait);
    d.append_chunk(&[4, 5]);
    d.finish();
    let second = t.take_new(&d);
    assert_eq!(second, vec![4, 5]);
    assert_eq!(t.next_action(&d), TeeNext::Complete);
}

#[test]
fn late_tee_still_gets_the_whole_buffer() {
    let mut d = tar_download(4);
    d.append_chunk(&[9, 8, 7, 6]);
    d.finish();
    let mut t = Tee::attach(&d);
    let all = t.take_new(&d);
    assert_eq!(all, vec![9, 8, 7, 6]);
    assert_eq!(t.next_action(&d), TeeNext::Complete);
}

#[test]
fn producer_failure_closes_tees_partially() {
    let mut d = tar_download(10);
    d.append_chunk(&[1, 2, 3, 4]);
    d.finish();
    assert!(!d.is_complete());
    let mut t = Tee::attach(&d);
    let got = t.take_new(&d);
    assert_eq!(got, vec![1, 2, 3, 4]);
    assert_eq!(t.next_action(&d), TeeNext::Partial);
}

#[test]
fn zero_length_archive_streams_empty_and_uploads_empty() {
    let headers = validate_headers(200, Some(0), HeaderValue::Text("application/x-tar".to_string()));
    assert_eq!(headers, Ok((0, "application/x-tar".to_string())));
    let mut d = tar_download(0);
    assert!(d.is_complete());
    d.finish();
    let mut t = Tee::attach(&d);
    let got = t.take_new(&d);
    assert!(got.is_empty());
    assert_eq!(t.next_action(&d), TeeNext::Complete);
    assert!(d.snapshot().is_empty());
}

#[test]
fn two_tees_see_identical_bytes() {
    let mut d = tar_download(6);
    let mut a = Tee::attach(&d);
    d.append_chunk(&[1, 2]);
    let mut got_a = a.take_new(&d);
    d.append_chunk(&[3, 4, 5, 6]);
    d.finish();
    let mut b = Tee::attach(&d);
    got_a.extend(a.take_new(&d));
    let got_b = b.take_new(&d);
    assert_eq!(got_a, vec![1, 2, 3, 4, 5, 6]);
    assert_eq!(got_b, got_a);
    assert_eq!(a.next_action(&d), TeeNext::Complete);
    assert_eq!(b.next_action(&d), TeeNext::Complete);
}

#[test]
fn client_disconnect_leaves_download_and_upload_untouched() {
    let mut d = tar_download(4);
    let mut half = Tee::attach(&d);
    d.append_chunk(&[1, 2]);
    let got = half.take_new(&d);
    assert_eq!(got, vec![1, 2]);
    drop(half);
    d.append_chunk(&[3, 4]);
    d.finish();
    assert!(d.is_complete());
    let mut other = Tee::attach(&d);
    assert_eq!(other.take_new(&d), vec![1, 2, 3, 4]);
    assert_eq!(d.snapshot(), vec![1, 2, 3, 4]);
}

#[test]
fn upload_snapshot_equals_the_full_body() {
    let mut d = tar_download(3);
    d.append_chunk(&[10]);
    d.append_chunk(&[20, 30]);
    d.finish();
    assert!(d.is_complete());
    assert_eq!(d.snapshot(), vec![10, 20, 30]);
}

#[test]
fn upload_succeeds_first_try() {
    let mut retry = UploadRetry::new();
    assert_eq!(retry.on_result(true), RetryAction::FinishSuccess);
    assert!(retry.finished);
}

#[test]
fn upload_retries_then_succeeds() {
    let mut retry = UploadRetry::new();
    assert_eq!(retry.on_result(false), RetryAction::RetryAgain);
    assert_eq!(retry.on_result(false), RetryAction::RetryAgain);
    assert_eq!(retry.on_result(true), RetryAction::FinishSuccess);
    assert!(retry.finished);
}

#[test]
fn ten_failures_exhaust_and_still_remove() {
    let mut retry = UploadRetry::new();
    let mut attempts = 0;
    loop {
        attempts += 1;
        match retry.on_result(false) {
            RetryAction::RetryAgain => continue,
            action => {
                assert_eq!(action, RetryAction::FinishExhausted);
                break;
            }
        }
    }
    assert_eq!(attempts, 10);
    assert!(retry.finished);
}

#[test]
fn retry_driver_counts_attempts() {
    assert_eq!(drive(&vec![true; 10]), (1, true));
    assert_eq!(drive(&vec![false; 10]), (10, false));
    let mut late = vec![false, false, false, true];
    late.resize(10, false);
    assert_eq!(drive(&late), (4, true));
    let mut last_chance = vec![false; 9];
    last_chance.push(true);
    assert_eq!(drive(&last_chance), (10, true));
}

#[test]
fn hundred_byte_archive_served_to_both_clients() {
    let r = CrateReq::new("serde".to_string(), "1.0.0".to_string());
    assert_eq!(
        r.download_url(),
        "https://static.crates.io/crates/serde/serde-1.0.0.crate"
    );
    assert_eq!(r.storage_key(), "serde/1.0.0");
    let body: Vec<u8> = (0u8..100).collect();
    let headers = validate_headers(200, Some(100), HeaderValue::Text("application/x-tar".to_string()));
    let (len, content_type) = headers.expect("headers must pass");
    let mut d = Download::new(content_type, len as usize);
    let mut a = Tee::attach(&d);
    d.append_chunk(&body[..40]);
    let mut got_a = a.take_new(&d);
    let mut b = Tee::attach(&d);
    let mut got_b = b.take_new(&d);
    d.append_chunk(&body[40..]);
    d.finish();
    got_a.extend(a.take_new(&d));
    got_b.extend(b.take_new(&d));
    assert_eq!(got_a, body);
    assert_eq!(got_b, body);
    assert_eq!(a.next_action(&d), TeeNext::Complete);
    assert_eq!(b.next_action(&d), TeeNext::Complete);
    assert_eq!(d.snapshot(), body);
}
