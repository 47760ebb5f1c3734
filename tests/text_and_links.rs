use imgserv::_default_path;
use imgserv::assets::type_from_name;
use imgserv::config::{expires_at, reap_cutoff, Span};
use imgserv::links::{blob_url, cache_control, data_file_path, paste_url};
use imgserv::text::{decimal_string, signed_decimal_string};

#[test]
fn decimal_of_zero_and_large() {
    assert_eq!(decimal_string(0), "0");
    assert_eq!(decimal_string(7), "7");
    assert_eq!(decimal_string(1234), "1234");
    assert_eq!(decimal_string(u64::MAX), "18446744073709551615");
}

#[test]
fn signed_decimal_forms() {
    assert_eq!(signed_decimal_string(0), "0");
    assert_eq!(signed_decimal_string(42), "42");
    assert_eq!(signed_decimal_string(-5), "-5");
    assert_eq!(signed_decimal_string(i64::MIN), "-9223372036854775808");
}

#[test]
fn expiry_adds_ttl() {
    let ttl = Span::from_secs(2);
    assert_eq!(expires_at(Some(Span::from_secs(100)), ttl), Some(102));
}

#[test]
fn expiry_carries_fractions() {
    let now = Span::new(10, 600_000_000);
    assert_eq!(expires_at(Some(now), Span::new(0, 500_000_000)), Some(11));
    assert_eq!(expires_at(Some(now), Span::new(1, 300_000_000)), Some(11));
}

#[test]
fn expiry_without_clock_fails() {
    assert_eq!(expires_at(None, Span::from_secs(2)), None);
}

#[test]
fn expiry_beyond_timestamps_fails() {
    let now = Span::from_secs(i64::MAX as u64);
    assert_eq!(expires_at(Some(now), Span::from_secs(0)), Some(i64::MAX));
    assert_eq!(expires_at(Some(now), Span::from_secs(1)), None);
    assert_eq!(expires_at(Some(Span::from_secs(u64::MAX)), Span::from_secs(0)), None);
}

#[test]
fn cutoff_is_whole_seconds() {
    assert_eq!(reap_cutoff(Span::new(1000, 999_999_999)), 1000);
    assert_eq!(reap_cutoff(Span::from_secs(u64::MAX)), i64::MAX);
}

#[test]
fn default_data_dir() {
    assert_eq!(_default_path(), "/var/lib/imgserv");
}

#[test]
fn blob_file_paths() {
    assert_eq!(data_file_path("/var/lib/imgserv", 5), "/var/lib/imgserv/data/5");
    assert_eq!(data_file_path("/srv/store/", 12), "/srv/store/data/12");
    assert_eq!(data_file_path("", 3), "data/3");
}

#[test]
fn links_to_content() {
    assert_eq!(blob_url("https://img.example.org", 7), "https://img.example.org/img/7");
    assert_eq!(paste_url("https://img.example.org", 31), "https://img.example.org/paste/31");
}

#[test]
fn cache_lifetime_header() {
    assert_eq!(cache_control(1_209_600), "max-age=1209600");
    assert_eq!(cache_control(0), "max-age=0");
}

#[test]
fn static_page_types() {
    assert_eq!(type_from_name("/paste.html.zstd"), Some("text/html; charset=UTF-8"));
    assert_eq!(type_from_name("style.css.zstd"), Some("text/css"));
    assert_eq!(type_from_name("app.js.zstd"), None);
    assert_eq!(type_from_name("noextension"), None);
    assert_eq!(type_from_name("html.zstd"), Some("text/html; charset=UTF-8"));
}
