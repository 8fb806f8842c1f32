use plume_auth::anisette::{
    generate, headers_to_plist, is_valid_at, lookup_header, needs_refresh_at, rewrite_client_info,
    whole_secs, AnisetteData, NANOS_PER_SEC,
};
use plume_auth::error::AuthError;
use plume_auth::headers::Headers;
use std::time::{Duration, SystemTime};

const CLIENT: &str = "com.apple.AuthKit/1 (com.apple.dt.Xcode/3594.4.19)";

fn base() -> Headers {
    let mut h = Headers::new();
    h.insert("X-Apple-I-MD".to_string(), "AAAA".to_string());
    h.insert(
        "X-Mme-Client-Info".to_string(),
        "<MacBookPro13,2> <macOS;13.1;22C65> <com.apple.AuthKit/1 (com.apple.Music/1.0)>".to_string(),
    );
    h.insert("X-Mme-Device-Id".to_string(), "DEVICE".to_string());
    h
}

fn made_ago(secs: u64) -> AnisetteData {
    AnisetteData::new(base(), SystemTime::now() - Duration::from_secs(secs))
}

fn secs(n: u128) -> Option<u128> {
    Some(n * NANOS_PER_SEC)
}

#[test]
fn freshness_windows() {
    assert!(!needs_refresh_at(secs(0)));
    assert!(needs_refresh_at(secs(61)));
    assert!(is_valid_at(secs(89)));
    assert!(!is_valid_at(secs(91)));
}

#[test]
fn freshness_boundaries() {
    assert!(!needs_refresh_at(secs(60)));
    assert!(needs_refresh_at(Some(60 * NANOS_PER_SEC + 1)));
    assert!(needs_refresh_at(Some(60_500_000_000)));
    assert!(is_valid_at(secs(0)));
    assert!(is_valid_at(Some(90 * NANOS_PER_SEC - 1)));
    assert!(!is_valid_at(secs(90)));
    assert!(needs_refresh_at(secs(75)) && is_valid_at(secs(75)));
    assert!(needs_refresh_at(None));
    assert!(!is_valid_at(None));
    assert!(needs_refresh_at(Some(u128::MAX)));
    assert!(!is_valid_at(Some(u128::MAX)));
}

#[test]
fn whole_seconds_of_an_age() {
    assert_eq!(whole_secs(0), 0);
    assert_eq!(whole_secs(999_999_999), 0);
    assert_eq!(whole_secs(1_000_000_000), 1);
    assert_eq!(whole_secs(60_500_000_000), 60);
    assert_eq!(whole_secs(u128::MAX), u64::MAX);
}

#[test]
fn half_a_second_past_the_limit_is_due() {
    let data = AnisetteData::new(base(), SystemTime::now() - Duration::from_millis(60_500));
    assert!(data.needs_refresh());
    assert!(data.is_valid());
    assert!(data.age_nanos().unwrap() >= 60_500_000_000);
}

#[test]
fn freshness_by_the_clock() {
    assert!(!made_ago(0).needs_refresh());
    assert!(made_ago(0).is_valid());
    assert!(made_ago(62).needs_refresh());
    assert!(made_ago(62).is_valid());
    assert!(!made_ago(91).is_valid());
    let age = made_ago(70).age_secs().unwrap();
    assert!((70..80).contains(&age));
    let ahead = AnisetteData::new(base(), SystemTime::now() + Duration::from_secs(3600));
    assert_eq!(ahead.age_secs(), None);
    assert!(ahead.needs_refresh());
    assert!(!ahead.is_valid());
}

#[test]
fn generate_on_invalid_data_fails() {
    for bits in 0..8u8 {
        let r = generate(&base(), false, bits & 1 != 0, bits & 2 != 0, bits & 4 != 0);
        assert_eq!(r.unwrap_err(), AuthError::StaleIdentity);
    }
    let r = made_ago(120).generate_headers(true, true, true);
    assert_eq!(r.unwrap_err(), AuthError::StaleIdentity);
    assert_eq!(made_ago(120).get_header("loc").unwrap_err(), AuthError::StaleIdentity);
    assert_eq!(
        made_ago(120).to_plist(false, false, false).unwrap_err(),
        AuthError::StaleIdentity
    );
}

#[test]
fn generate_without_options_returns_the_base_set() {
    let h = generate(&base(), true, false, false, false).unwrap();
    assert_eq!(h.len(), 3);
    assert_eq!(
        h.get("X-Mme-Client-Info"),
        Some("<MacBookPro13,2> <macOS;13.1;22C65> <com.apple.AuthKit/1 (com.apple.Music/1.0)>".to_string())
    );
    assert_eq!(h.get("X-Apple-I-MD"), Some("AAAA".to_string()));
    assert_eq!(h.get("X-Mme-Device-Id"), Some("DEVICE".to_string()));
    let mut two = Headers::new();
    two.insert("X-Mme-Client-Info".to_string(), "<a> <b> <c>".to_string());
    two.insert("A".to_string(), "1".to_string());
    let data = AnisetteData::new(two, SystemTime::now());
    let out = data.generate_headers(false, false, false).unwrap();
    assert_eq!(out.len(), 2);
    assert_eq!(out.get("X-Mme-Client-Info"), Some("<a> <b> <c>".to_string()));
    assert_eq!(out.get("A"), Some("1".to_string()));
}

#[test]
fn generate_rewrites_the_located_segment_only() {
    let mut b = Headers::new();
    b.insert("X-Mme-Client-Info".to_string(), "<x> <x> <x>".to_string());
    let data = AnisetteData::new(b, SystemTime::now());
    let out = data.generate_headers(false, true, false).unwrap();
    assert_eq!(out.len(), 1);
    assert_eq!(out.get("X-Mme-Client-Info"), Some(format!("<x> <x> <{}>", CLIENT)));
}

#[test]
fn generate_rewrites_client_info() {
    let h = generate(&base(), true, false, true, false).unwrap();
    assert_eq!(h.len(), 3);
    assert_eq!(
        h.get("X-Mme-Client-Info"),
        Some(format!("<MacBookPro13,2> <macOS;13.1;22C65> <{}>", CLIENT))
    );
}

#[test]
fn generate_adds_fixed_headers() {
    let h = generate(&base(), true, true, true, true).unwrap();
    assert_eq!(h.len(), 11);
    assert_eq!(h.get("X-Apple-App-Info"), Some("com.apple.gs.xcode.auth".to_string()));
    assert_eq!(h.get("X-Xcode-Version"), Some("11.2 (11B41)".to_string()));
    assert_eq!(h.get("bootstrap"), Some("true".to_string()));
    assert_eq!(h.get("icscrec"), Some("true".to_string()));
    assert_eq!(h.get("loc"), Some("en_GB".to_string()));
    assert_eq!(h.get("pbe"), Some("false".to_string()));
    assert_eq!(h.get("prkgen"), Some("true".to_string()));
    assert_eq!(h.get("svct"), Some("iCloud".to_string()));
    let only_app = generate(&base(), true, false, false, true).unwrap();
    assert_eq!(only_app.len(), 5);
    assert_eq!(only_app.get("bootstrap"), None);
    let only_cpd = generate(&base(), true, true, false, false).unwrap();
    assert_eq!(only_cpd.len(), 9);
    assert_eq!(only_cpd.get("X-Xcode-Version"), None);
}

#[test]
fn generate_fixed_headers_replace_base_values() {
    let mut b = base();
    b.insert("loc".to_string(), "de_DE".to_string());
    let h = generate(&b, true, true, false, false).unwrap();
    assert_eq!(h.get("loc"), Some("en_GB".to_string()));
    assert_eq!(h.len(), 9);
}

#[test]
fn generate_without_client_header_returns_base() {
    let mut b = Headers::new();
    b.insert("X-Apple-I-MD".to_string(), "AAAA".to_string());
    let h = generate(&b, true, true, true, true).unwrap();
    assert_eq!(h.len(), 1);
    assert_eq!(h.get("X-Apple-I-MD"), Some("AAAA".to_string()));
    assert_eq!(h.get("bootstrap"), None);
}

#[test]
fn generate_with_unlocatable_description_returns_base() {
    let mut b = Headers::new();
    b.insert("X-Mme-Client-Info".to_string(), "<one> <two>".to_string());
    b.insert("k".to_string(), "v".to_string());
    let h = generate(&b, true, true, true, true).unwrap();
    assert_eq!(h.len(), 2);
    assert_eq!(h.get("X-Mme-Client-Info"), Some("<one> <two>".to_string()));
    assert_eq!(h.get("k"), Some("v".to_string()));
    assert_eq!(h.get("X-Apple-App-Info"), None);
}

#[test]
fn rewrite_client_info_forms() {
    assert_eq!(rewrite_client_info(""), None);
    assert_eq!(rewrite_client_info("<a> <b>"), None);
    assert_eq!(rewrite_client_info("<a> <b> <c>"), Some(format!("<a> <b> <{}>", CLIENT)));
    assert_eq!(rewrite_client_info("<a> <b> <c"), Some(format!("<a> <b> <{}", CLIENT)));
    assert_eq!(
        rewrite_client_info("<a> <b> <c<d>"),
        Some(format!("<a> <b> <{}<d>", CLIENT))
    );
    assert_eq!(
        rewrite_client_info("<a> <a> <a>"),
        Some(format!("<a> <a> <{}>", CLIENT))
    );
    assert_eq!(rewrite_client_info("<<<"), Some(format!("<<<{}", CLIENT)));
    assert_eq!(rewrite_client_info("<<<>"), Some(format!("<<<{}>", CLIENT)));
    assert_eq!(rewrite_client_info("<a> <b> <c> tail <d>"), Some(format!("<a> <b> <{}> tail <d>", CLIENT)));
}

#[test]
fn generate_leaves_the_base_alone() {
    let data = AnisetteData::new(base(), SystemTime::now());
    let first = data.generate_headers(true, true, true).unwrap();
    let second = data.generate_headers(false, false, false).unwrap();
    assert_eq!(first.len(), 11);
    assert_eq!(second.len(), 3);
    assert_eq!(data.base_headers.len(), 3);
}

#[test]
fn lookup_ignores_case() {
    let h = generate(&base(), true, true, true, true).unwrap();
    assert_eq!(lookup_header(&h, "x-apple-app-info"), Ok("com.apple.gs.xcode.auth".to_string()));
    assert_eq!(lookup_header(&h, "X-XCODE-VERSION"), Ok("11.2 (11b41)".to_string()));
    assert_eq!(lookup_header(&h, "LOC"), Ok("en_gb".to_string()));
    assert_eq!(lookup_header(&h, "X-Apple-I-MD"), Ok("aaaa".to_string()));
    assert_eq!(
        lookup_header(&h, "missing").unwrap_err(),
        AuthError::DeveloperSessionRequestFailed
    );
}

#[test]
fn get_header_of_fresh_data() {
    let data = AnisetteData::new(base(), SystemTime::now());
    assert_eq!(data.get_header("SVCT"), Ok("icloud".to_string()));
    assert_eq!(data.get_header("x-mme-device-id"), Ok("device".to_string()));
    assert_eq!(
        data.get_header("nothing").unwrap_err(),
        AuthError::DeveloperSessionRequestFailed
    );
}

#[test]
fn plist_of_headers() {
    let h = generate(&base(), true, false, false, true).unwrap();
    let d = headers_to_plist(&h);
    assert_eq!(d.len(), 5);
    assert_eq!(d.get("X-Apple-I-MD").and_then(|v| v.as_string()), Some("AAAA"));
    assert_eq!(d.get("X-Xcode-Version").and_then(|v| v.as_string()), Some("11.2 (11B41)"));
    let data = AnisetteData::new(base(), SystemTime::now());
    let full = data.to_plist(true, true, true).unwrap();
    assert_eq!(full.len(), 11);
    assert_eq!(full.get("loc").and_then(|v| v.as_string()), Some("en_GB"));
    assert_eq!(headers_to_plist(&Headers::new()).len(), 0);
}

#[test]
fn refresh_makes_a_new_value() {
    let old = made_ago(70);
    let at = SystemTime::now();
    let mut next_base = Headers::new();
    next_base.insert("X-Apple-I-MD".to_string(), "BBBB".to_string());
    let new = old.refresh(next_base, at);
    assert_eq!(new.generated_at, at);
    assert_eq!(new.base_headers.get("X-Apple-I-MD"), Some("BBBB".to_string()));
    assert_eq!(old.base_headers.get("X-Apple-I-MD"), Some("AAAA".to_string()));
    assert!(!new.needs_refresh());
}

#[test]
fn headers_hold_each_name_once() {
    let mut h = Headers::new();
    assert_eq!(h.len(), 0);
    h.insert("a".to_string(), "1".to_string());
    h.insert("b".to_string(), "2".to_string());
    h.insert("a".to_string(), "3".to_string());
    assert_eq!(h.len(), 2);
    assert_eq!(h.get("a"), Some("3".to_string()));
    assert_eq!(h.get("A"), None);
    assert_eq!(h.name_at(0), "a");
    assert_eq!(h.value_at(1), "2");
    assert_eq!(h.remove("a"), Some("3".to_string()));
    assert_eq!(h.remove("a"), None);
    assert_eq!(h.len(), 1);
    let copy = h.duplicate();
    h.insert("c".to_string(), "4".to_string());
    assert_eq!(copy.len(), 1);
    assert_eq!(copy.get("b"), Some("2".to_string()));
}

#[test]
fn lookup_takes_the_first_of_names_that_differ_in_case() {
    let mut h = Headers::new();
    h.insert("Loc".to_string(), "First".to_string());
    h.insert("LOC".to_string(), "Second".to_string());
    assert_eq!(lookup_header(&h, "loc"), Ok("first".to_string()));
    h.remove("Loc");
    assert_eq!(lookup_header(&h, "loc"), Ok("second".to_string()));
}
