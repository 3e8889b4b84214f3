use currency_converter::cache::CurrencyCache;
use currency_converter::error::AppError;
use currency_converter::error::ErrorKind;
use currency_converter::text::str_eq;
use currency_converter::text::trim;
use currency_converter::text::u16_to_dec;

#[test]
fn cache_starts_empty_and_misses() {
    let cache = CurrencyCache::new();
    assert_eq!(cache.len(), 0);
    assert_eq!(cache.get("Japan"), None);
}

#[test]
fn cache_stores_and_returns_codes() {
    let mut cache = CurrencyCache::new();
    cache.insert("Japan", "JPY".to_string());
    cache.insert("France", "EUR".to_string());
    assert_eq!(cache.get("Japan"), Some(&"JPY".to_string()));
    assert_eq!(cache.get("France"), Some(&"EUR".to_string()));
    assert_eq!(cache.get("Peru"), None);
    assert_eq!(cache.len(), 2);
}

#[test]
fn racing_writers_converge_to_one_entry() {
    let mut cache = CurrencyCache::new();
    // two resolutions of the same uncached name may both write; the cache
    // keeps a single, complete entry and the last writer wins
    cache.insert("Japan", "JPY".to_string());
    cache.insert("Japan", "JPY".to_string());
    assert_eq!(cache.len(), 1);
    assert_eq!(cache.get("Japan"), Some(&"JPY".to_string()));
    cache.insert("Japan", "YEN".to_string());
    assert_eq!(cache.len(), 1);
    assert_eq!(cache.get("Japan"), Some(&"YEN".to_string()));
}

#[test]
fn trim_removes_surrounding_white_space_only() {
    assert_eq!(trim("  Japan\t\n"), "Japan");
    assert_eq!(trim("United States"), "United States");
    assert_eq!(trim("\u{3000}a b\u{00A0}"), "a b");
    assert_eq!(trim("   "), "");
    assert_eq!(trim(""), "");
}

#[test]
fn str_eq_compares_characters() {
    assert!(str_eq("RUB", "RUB"));
    assert!(!str_eq("RUB", "RU"));
    assert!(!str_eq("RUB", "rub"));
    assert!(str_eq("", ""));
}

#[test]
fn u16_renders_in_decimal() {
    assert_eq!(u16_to_dec(0), "0");
    assert_eq!(u16_to_dec(7), "7");
    assert_eq!(u16_to_dec(200), "200");
    assert_eq!(u16_to_dec(404), "404");
    assert_eq!(u16_to_dec(65535), "65535");
}

#[test]
fn boundary_message_embeds_details() {
    let err = AppError::new(ErrorKind::UpstreamTransport, "http response error");
    assert_eq!(err.boundary_message(), "Something went wrong: http response error");
}
