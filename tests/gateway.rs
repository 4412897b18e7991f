use fdb_rest::envelope::{decode, encode, Item};
use fdb_rest::error::{AppError, ConflictReason};
use fdb_rest::get::{get_item, get_or_list_prefix, slice_payload, GetOrListParams, GetPlan};
use fdb_rest::list::{join_listing, list_items, listing_line};
use fdb_rest::params::{parse_i64, parse_u64, parse_usize};
use fdb_rest::post::{write_key, WriteParams};
use fdb_rest::range::{list_range, KeySelector};

fn pairs(kv: &[(&str, &str)]) -> Vec<(Vec<u8>, Vec<u8>)> {
    kv.iter()
        .map(|(k, v)| (k.as_bytes().to_vec(), v.as_bytes().to_vec()))
        .collect()
}

fn envelope(version: i64, data: &[u8]) -> Vec<u8> {
    encode(&Item { version, data: data.to_vec() })
}

fn no_flags() -> WriteParams {
    WriteParams { if_exists: None, not_exists: None, version: None }
}

fn get_params(kv: &[(&str, &str)]) -> GetOrListParams {
    GetOrListParams::from_query(&pairs(kv)).unwrap()
}

// Stands in for the store's range read: sorted keys, bounded by the selectors,
// in scan direction, cut at the limit.
fn admits(sel: &KeySelector, k: &[u8]) -> bool {
    match sel {
        KeySelector::GreaterOrEqual(x) => k >= x.as_slice(),
        KeySelector::GreaterThan(x) => k > x.as_slice(),
        KeySelector::LessOrEqual(x) => k <= x.as_slice(),
        KeySelector::LessThan(x) => k < x.as_slice(),
    }
}

fn scan(keys: &[&str], plan: &GetPlan) -> Vec<Vec<u8>> {
    let GetPlan::List(p) = plan else { panic!("not a listing") };
    let mut ks: Vec<Vec<u8>> = keys.iter().map(|k| k.as_bytes().to_vec()).collect();
    ks.sort();
    ks.retain(|k| admits(&p.lower, k) && admits(&p.upper, k));
    if p.reverse {
        ks.reverse();
    }
    ks.truncate(p.limit);
    ks
}

#[test]
fn envelope_round_trip_binary() {
    let item = Item { version: -42, data: vec![0xff, 0x00, 0xfe, b'\n'] };
    let bytes = encode(&item);
    assert_eq!(bytes.len(), 12);
    let back = decode(&bytes).unwrap();
    assert_eq!(back.version, -42);
    assert_eq!(back.data, vec![0xff, 0x00, 0xfe, b'\n']);
}

#[test]
fn envelope_layout_is_big_endian() {
    assert_eq!(envelope(1, b"x"), vec![0, 0, 0, 0, 0, 0, 0, 1, b'x']);
    assert_eq!(envelope(-1, b""), vec![0xff; 8]);
    let back = decode(&envelope(i64::MIN, b"")).unwrap();
    assert_eq!(back.version, i64::MIN);
}

#[test]
fn envelope_too_short_is_malformed() {
    assert!(decode(&[1, 2, 3]).is_none());
    assert!(decode(&[]).is_none());
}

#[test]
fn integer_parsing() {
    assert_eq!(parse_u64(b"0"), Some(0));
    assert_eq!(parse_u64(b"18446744073709551615"), Some(u64::MAX));
    assert_eq!(parse_u64(b"18446744073709551616"), None);
    assert_eq!(parse_u64(b""), None);
    assert_eq!(parse_u64(b"12a"), None);
    assert_eq!(parse_usize(b"100"), Some(100));
    assert_eq!(parse_i64(b"-9223372036854775808"), Some(i64::MIN));
    assert_eq!(parse_i64(b"9223372036854775808"), None);
    assert_eq!(parse_i64(b"+7"), Some(7));
    assert_eq!(parse_i64(b"-"), None);
}

#[test]
fn malformed_integer_parameter_is_validation_error() {
    let r = GetOrListParams::from_query(&pairs(&[("limit", "ten")]));
    assert_eq!(r.unwrap_err(), AppError::ValidationError);
    let r = WriteParams::from_query(&pairs(&[("v", "1.5")]));
    assert_eq!(r.unwrap_err(), AppError::ValidationError);
    assert_eq!(AppError::ValidationError.status_code(), 400);
}

#[test]
fn flags_count_by_presence_and_aliases() {
    let p = get_params(&[("list", ""), ("vals", "false"), ("reverse", "0")]);
    assert!(p.with_vals.is_some());
    assert!(p.reverse.is_some());
    let w = WriteParams::from_query(&pairs(&[("ix", "false"), ("nx", ""), ("v", "-3")])).unwrap();
    assert!(w.if_exists.is_some());
    assert!(w.not_exists.is_some());
    assert_eq!(w.version, Some(-3));
}

#[test]
fn plan_health_fetch_and_list() {
    let p = get_params(&[]);
    assert!(matches!(get_or_list_prefix(None, &p), GetPlan::Health));
    let p = get_params(&[("start", "2"), ("end", "4")]);
    match get_or_list_prefix(Some(b"k".to_vec()), &p) {
        GetPlan::Fetch { key, start, end } => {
            assert_eq!(key, b"k".to_vec());
            assert_eq!(start, Some(2));
            assert_eq!(end, Some(4));
        }
        _ => panic!("expected a fetch"),
    }
    // `list` with a value is not a listing.
    let p = get_params(&[("list", "x")]);
    assert!(matches!(get_or_list_prefix(Some(b"k".to_vec()), &p), GetPlan::Fetch { .. }));
    let p = get_params(&[("list", "")]);
    match get_or_list_prefix(None, &p) {
        GetPlan::List(plan) => {
            assert_eq!(plan.limit, 100);
            assert!(!plan.reverse);
            assert!(!plan.with_vals);
        }
        _ => panic!("expected a listing"),
    }
}

#[test]
fn range_bounds_by_direction() {
    let p = b"a/".to_vec();
    match list_range(Some(&p), false) {
        (KeySelector::GreaterThan(lo), KeySelector::LessOrEqual(hi)) => {
            assert_eq!(lo, b"a/".to_vec());
            assert_eq!(hi, vec![0xff]);
        }
        _ => panic!("forward bounds"),
    }
    match list_range(Some(&p), true) {
        (KeySelector::GreaterOrEqual(lo), KeySelector::LessThan(hi)) => {
            assert!(lo.is_empty());
            assert_eq!(hi, b"a/".to_vec());
        }
        _ => panic!("reverse bounds"),
    }
    match list_range(None, true) {
        (KeySelector::GreaterOrEqual(lo), KeySelector::LessOrEqual(hi)) => {
            assert!(lo.is_empty());
            assert_eq!(hi, vec![0xff]);
        }
        _ => panic!("whole key space"),
    }
}

#[test]
fn unwritten_key_is_not_found() {
    let r = get_item(None, None, None);
    assert_eq!(r.unwrap_err(), AppError::NotFound);
    assert_eq!(AppError::NotFound.status_code(), 404);
}

#[test]
fn write_then_read_returns_payload_and_version() {
    let stored = write_key(None, &no_flags(), 1_700_000_000_000_000_000, b"payload".to_vec()).unwrap();
    let item = get_item(Some(&stored), None, None).unwrap();
    assert_eq!(item.data, b"payload".to_vec());
    assert_eq!(item.version, 1_700_000_000_000_000_000);
    assert!(item.version > 0);
}

#[test]
fn create_only_on_existing_key_conflicts() {
    let stored = envelope(5, b"old");
    let params = WriteParams::from_query(&pairs(&[("nx", "")])).unwrap();
    let r = write_key(Some(&stored), &params, 9, b"new".to_vec());
    assert_eq!(r.unwrap_err(), AppError::Conflict(ConflictReason::KeyExists));
    assert_eq!(AppError::Conflict(ConflictReason::KeyExists).status_code(), 409);
}

#[test]
fn update_only_on_missing_key_conflicts() {
    let params = WriteParams::from_query(&pairs(&[("ix", "")])).unwrap();
    let r = write_key(None, &params, 9, b"new".to_vec());
    assert_eq!(r.unwrap_err(), AppError::Conflict(ConflictReason::KeyMissing));
    let params = WriteParams::from_query(&pairs(&[("version", "3")])).unwrap();
    let r = write_key(None, &params, 9, b"new".to_vec());
    assert_eq!(r.unwrap_err(), AppError::Conflict(ConflictReason::KeyMissing));
}

#[test]
fn version_checked_write() {
    let stored = envelope(5, b"old");
    let params = WriteParams::from_query(&pairs(&[("v", "4")])).unwrap();
    let r = write_key(Some(&stored), &params, 9, b"new".to_vec());
    assert_eq!(r.unwrap_err(), AppError::Conflict(ConflictReason::VersionMismatch));
    let params = WriteParams::from_query(&pairs(&[("v", "5")])).unwrap();
    let after = write_key(Some(&stored), &params, 9, b"new".to_vec()).unwrap();
    let item = get_item(Some(&after), None, None).unwrap();
    assert_eq!(item.version, 9);
    assert_ne!(item.version, 5);
    assert_eq!(item.data, b"new".to_vec());
}

#[test]
fn corrupt_envelope_is_internal_error() {
    let corrupt = vec![1u8, 2];
    assert_eq!(get_item(Some(&corrupt), None, None).unwrap_err(), AppError::InternalError);
    assert_eq!(write_key(Some(&corrupt), &no_flags(), 1, vec![]).unwrap_err(), AppError::InternalError);
    assert_eq!(AppError::InternalError.status_code(), 500);
    assert_eq!(AppError::StoreError.status_code(), 502);
}

#[test]
fn slice_of_stored_payload() {
    let stored = envelope(7, b"abcdef");
    let item = get_item(Some(&stored), Some(1), Some(3)).unwrap();
    assert_eq!(item.data, b"bc".to_vec());
    assert_eq!(item.version, 7);
    let item = get_item(Some(&stored), Some(4), None).unwrap();
    assert_eq!(item.data, b"ef".to_vec());
    let item = get_item(Some(&stored), None, Some(2)).unwrap();
    assert_eq!(item.data, b"ab".to_vec());
}

#[test]
fn bad_slice_is_client_error() {
    let data = b"abcdef".to_vec();
    assert_eq!(slice_payload(&data, Some(3), Some(1)).unwrap_err(), AppError::ValidationError);
    assert_eq!(slice_payload(&data, None, Some(7)).unwrap_err(), AppError::ValidationError);
    assert_eq!(slice_payload(&data, Some(7), None).unwrap_err(), AppError::ValidationError);
    assert_eq!(slice_payload(&data, Some(6), None).unwrap(), Vec::<u8>::new());
    assert!(AppError::ValidationError.is_client_error());
}

#[test]
fn listing_lines_and_join() {
    let line = listing_line(&b"k".to_vec(), Some(&b"dg==".to_vec()));
    assert_eq!(line, b"k:dg==".to_vec());
    assert_eq!(join_listing(&vec![b"a".to_vec(), b"b".to_vec()]), b"a\nb".to_vec());
    assert_eq!(join_listing(&vec![]), Vec::<u8>::new());
}

#[test]
fn listing_keys_only_and_with_values() {
    let entries = vec![
        (b"a/1".to_vec(), envelope(1, b"abc")),
        (b"a/2".to_vec(), envelope(2, &[0xff])),
    ];
    assert_eq!(list_items(&entries, false).unwrap(), b"a/1\na/2".to_vec());
    assert_eq!(list_items(&entries, true).unwrap(), b"a/1:YWJj\na/2:/w==".to_vec());
    assert_eq!(list_items(&vec![], true).unwrap(), Vec::<u8>::new());
    let bad = vec![(b"x".to_vec(), vec![0u8])];
    assert_eq!(list_items(&bad, true).unwrap_err(), AppError::InternalError);
    assert_eq!(list_items(&bad, false).unwrap(), b"x".to_vec());
}

#[test]
fn prefix_listing_forward_starts_past_prefix() {
    let keys = ["a/1", "a/2", "b/1", "a/"];
    let plan = get_or_list_prefix(Some(b"a/".to_vec()), &get_params(&[("list", ""), ("limit", "2")]));
    assert_eq!(scan(&keys, &plan), vec![b"a/1".to_vec(), b"a/2".to_vec()]);
}

#[test]
fn listing_limit_one_takes_first_in_scan_order() {
    let keys = ["c", "a", "b"];
    let plan = get_or_list_prefix(None, &get_params(&[("list", ""), ("limit", "1")]));
    assert_eq!(scan(&keys, &plan), vec![b"a".to_vec()]);
    let plan = get_or_list_prefix(None, &get_params(&[("list", ""), ("limit", "1"), ("reverse", "")]));
    assert_eq!(scan(&keys, &plan), vec![b"c".to_vec()]);
}
