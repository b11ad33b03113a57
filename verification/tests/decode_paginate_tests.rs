use std::io::Read;

use polygon_fetch::decode::{decode_response, require_nonempty};
use polygon_fetch::error::{FetchError, PermanentCause, TransientCause};
use polygon_fetch::paginate::{extract_cursor, CursorPager, DedupPager, Keyed};
use polygon_fetch::timestamp::{normalize_batch, normalize_ts, TsUnit};

fn gzip_bytes(plain: &[u8]) -> Vec<u8> {
    let mut encoder = flate2::read::GzEncoder::new(plain, flate2::Compression::default());
    let mut out = Vec::new();
    encoder.read_to_end(&mut out).unwrap();
    out
}

#[test]
fn gzip_body_decodes_like_the_plain_body() {
    let plain = b"{\"results\":[1,2,3],\"status\":\"OK\"}".to_vec();
    let gz = gzip_bytes(&plain);
    let from_gzip = decode_response(200, Some("gzip"), gz, None).unwrap();
    let from_plain = decode_response(200, None, plain.clone(), None).unwrap();
    assert_eq!(from_gzip, from_plain);
    assert_eq!(from_plain, plain);
}

#[test]
fn status_404_is_the_empty_result_signal() {
    let r = decode_response(404, None, Vec::new(), None);
    assert!(matches!(r, Err(FetchError::EmptyResult)));
}

#[test]
fn retryable_statuses_classify_transient() {
    let r = decode_response(500, None, Vec::new(), None);
    assert!(matches!(
        r,
        Err(FetchError::Transient(TransientCause::Status(500)))
    ));
    let r = decode_response(429, None, Vec::new(), None);
    assert!(matches!(
        r,
        Err(FetchError::Transient(TransientCause::Status(429)))
    ));
}

#[test]
fn other_statuses_classify_permanent() {
    let r = decode_response(418, None, Vec::new(), None);
    assert!(matches!(
        r,
        Err(FetchError::Permanent(PermanentCause::Status(418)))
    ));
}

#[test]
fn corrupt_gzip_is_permanent() {
    let r = decode_response(200, Some("gzip"), b"not gzip at all".to_vec(), None);
    assert!(matches!(
        r,
        Err(FetchError::Permanent(PermanentCause::CorruptBody))
    ));
}

#[test]
fn malformed_json_is_permanent() {
    let r = decode_response(200, None, b"{\"unterminated\":".to_vec(), None);
    assert!(matches!(
        r,
        Err(FetchError::Permanent(PermanentCause::MalformedJson))
    ));
    // An unknown content encoding is read as-is.
    let r = decode_response(200, Some("identity"), b"[1,2]".to_vec(), None);
    assert_eq!(r.unwrap(), b"[1,2]".to_vec());
}

#[test]
fn decompressed_body_over_the_ceiling_is_rejected() {
    let plain = b"[1,2,3,4,5,6,7,8,9,10]".to_vec();
    let gz = gzip_bytes(&plain);
    let r = decode_response(200, Some("gzip"), gz.clone(), Some(4));
    assert!(matches!(
        r,
        Err(FetchError::Permanent(PermanentCause::BodyTooLarge))
    ));
    // A generous ceiling lets the same body through.
    let r = decode_response(200, Some("gzip"), gz, Some(1_000_000));
    assert_eq!(r.unwrap(), plain);
}

#[test]
fn empty_page_is_the_distinguished_signal_for_demanded_records() {
    let r = require_nonempty(Vec::<u32>::new());
    assert!(matches!(r, Err(FetchError::EmptyResult)));
    let r = require_nonempty(vec![7u32, 8]);
    assert_eq!(r.unwrap(), vec![7, 8]);
}

#[test]
fn extract_cursor_takes_the_suffix() {
    let r = extract_cursor("https://host/v3/trades/AAPL?cursor=abc123").unwrap();
    assert_eq!(r, "abc123");
    let r = extract_cursor("cursor=").unwrap();
    assert_eq!(r, "");
}

#[test]
fn extract_cursor_rejects_missing_or_repeated_cursors() {
    let r = extract_cursor("https://host/v3/trades/AAPL?limit=10");
    assert!(matches!(
        r,
        Err(FetchError::Permanent(PermanentCause::MalformedPagination))
    ));
    let r = extract_cursor("https://host?cursor=a&cursor=b");
    assert!(matches!(
        r,
        Err(FetchError::Permanent(PermanentCause::MalformedPagination))
    ));
    let r = extract_cursor("short");
    assert!(matches!(
        r,
        Err(FetchError::Permanent(PermanentCause::MalformedPagination))
    ));
}

#[test]
fn cursor_pager_concatenates_pages_in_order() {
    let mut pager: CursorPager<u32> = CursorPager::new();
    let next = pager
        .step(vec![1, 2], Some("https://host/page?cursor=next1"))
        .unwrap();
    assert_eq!(next, Some("next1".to_string()));
    let next = pager.step(vec![3], None).unwrap();
    assert_eq!(next, None);
    assert_eq!(pager.items, vec![1, 2, 3]);
}

#[test]
fn cursor_pager_surfaces_malformed_continuations() {
    let mut pager: CursorPager<u32> = CursorPager::new();
    let r = pager.step(vec![9], Some("https://host/page?limit=2"));
    assert!(matches!(
        r,
        Err(FetchError::Permanent(PermanentCause::MalformedPagination))
    ));
    // The page itself arrived whole and is kept.
    assert_eq!(pager.items, vec![9]);
}

fn rec(ts: i64, key: u64) -> Keyed<u64> {
    Keyed { ts, key, value: key }
}

#[test]
fn dedup_pager_drops_boundary_duplicates() {
    // Page one ends with three records at its maximum timestamp 100, keys
    // 1, 2 and 3. Page two repeats them at the same timestamp and adds keys
    // 4 and 5; only 4 and 5 are appended.
    let mut pager: DedupPager<u64> = DedupPager::new(5);
    let page1 = vec![rec(90, 10), rec(95, 11), rec(100, 1), rec(100, 2), rec(100, 3)];
    let done = pager.step(page1);
    assert!(!done);
    assert_eq!(pager.boundary_ts, 100);
    let page2 = vec![rec(100, 1), rec(100, 2), rec(100, 3), rec(100, 4), rec(101, 5)];
    let done = pager.step(page2);
    assert!(!done);
    let keys: Vec<u64> = pager.items.iter().map(|r| r.key).collect();
    assert_eq!(keys, vec![10, 11, 1, 2, 3, 4, 5]);
    // A short (here: empty) page signals exhaustion.
    let done = pager.step(Vec::new());
    assert!(done);
    assert_eq!(pager.items.len(), 7);
}

#[test]
fn dedup_pager_boundary_keys_are_only_those_at_the_maximum() {
    let mut pager: DedupPager<u64> = DedupPager::new(3);
    let done = pager.step(vec![rec(50, 1), rec(60, 2), rec(60, 3)]);
    assert!(!done);
    assert_eq!(pager.boundary_ts, 60);
    let mut keys = pager.boundary_keys.clone();
    keys.sort();
    assert_eq!(keys, vec![2, 3]);
    // Key 1 sat below the boundary, so it is not dropped if it reappears.
    let done = pager.step(vec![rec(60, 1), rec(60, 2)]);
    assert!(done);
    let kept: Vec<u64> = pager.items.iter().map(|r| r.key).collect();
    assert_eq!(kept, vec![1, 2, 3, 1]);
}

#[test]
fn normalize_ts_scales_and_corrects() {
    // Equities on millisecond endpoints shed a five-hour correction.
    assert_eq!(normalize_ts(18_000_000, TsUnit::Millis, true), Some(0));
    assert_eq!(normalize_ts(1, TsUnit::Millis, false), Some(1_000_000));
    assert_eq!(normalize_ts(7, TsUnit::Nanos, true), Some(7));
    // A millisecond value whose nanosecond form exceeds the 64-bit range.
    assert_eq!(normalize_ts(i64::MAX, TsUnit::Millis, false), None);
}

#[test]
fn window_start_is_closed_and_end_is_open() {
    let from = 1_000i64;
    let to = 2_000i64;
    // Exactly at the start: passes.
    assert!(normalize_batch(&vec![1_000], TsUnit::Nanos, false, from, to).is_ok());
    // One nanosecond before the start: the whole batch is rejected.
    let r = normalize_batch(&vec![999], TsUnit::Nanos, false, from, to);
    assert!(matches!(
        r,
        Err(FetchError::Permanent(PermanentCause::TimestampOutOfRange(0)))
    ));
    // Exactly at the open end: rejected too.
    let r = normalize_batch(&vec![1_500, 2_000], TsUnit::Nanos, false, from, to);
    assert!(matches!(
        r,
        Err(FetchError::Permanent(PermanentCause::TimestampOutOfRange(1)))
    ));
    // Just inside the end: passes.
    let ok = normalize_batch(&vec![1_999], TsUnit::Nanos, false, from, to).unwrap();
    assert_eq!(ok, vec![1_999]);
}

#[test]
fn empty_batch_is_the_distinguished_signal() {
    let r = normalize_batch(&Vec::new(), TsUnit::Nanos, false, 0, 10);
    assert!(matches!(r, Err(FetchError::EmptyResult)));
}

#[test]
fn unrepresentable_batch_entry_names_its_index() {
    let r = normalize_batch(&vec![0, i64::MAX], TsUnit::Millis, false, 0, i64::MAX);
    assert!(matches!(
        r,
        Err(FetchError::Permanent(PermanentCause::TimestampUnrepresentable(1)))
    ));
}

#[test]
fn normalized_batch_converts_every_record() {
    let ok = normalize_batch(
        &vec![18_000_000, 18_000_001],
        TsUnit::Millis,
        true,
        0,
        2_000_000,
    )
    .unwrap();
    assert_eq!(ok, vec![0, 1_000_000]);
}
