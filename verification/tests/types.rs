use cryptoally_api::domain::types::{ApiKeyPlaintext, AssetId, FxCurrency, Lang, MarketSlug, Pagination, Symbol};

#[test]
fn lang_defaults_to_english_for_unknown_or_absent() {
    assert_eq!(Lang::parse_or_default(None).code(), "en");
    assert_eq!(Lang::parse_or_default(Some("fr")).code(), "en");
    assert_eq!(Lang::parse_or_default(Some("")).code(), "en");
}

#[test]
fn lang_parses_every_supported_code() {
    assert_eq!(Lang::parse_or_default(Some("es")).code(), "es");
    assert_eq!(Lang::parse_or_default(Some("pt")).code(), "pt");
    assert_eq!(Lang::parse_or_default(Some("ja")).code(), "ja");
    assert_eq!(Lang::parse_or_default(Some("zh")).code(), "zh");
}

#[test]
fn pagination_clamps_out_of_range_values() {
    let p = Pagination::new(Some(-5), Some(-1), 50, 500);
    assert_eq!(p.limit, 1); // clamped up to the minimum of 1
    assert_eq!(p.offset, 0); // negative offset clamped to 0

    let p = Pagination::new(Some(99_999), None, 50, 500);
    assert_eq!(p.limit, 500); // clamped down to max_limit

    let p = Pagination::new(None, None, 50, 500);
    assert_eq!(p.limit, 50); // default applied
    assert_eq!(p.offset, 0);
}

#[test]
fn api_key_hash_is_deterministic_sha256_hex() {
    let key = ApiKeyPlaintext("ca_live_test123".to_string());
    let hash1 = key.hash();
    let hash2 = key.hash();
    assert_eq!(hash1, hash2);
    assert_eq!(hash1.0.len(), 64); // hex-encoded SHA-256 digest
    assert!(hash1.0.chars().all(|c| c.is_ascii_hexdigit()));
}

#[test]
fn different_keys_hash_differently() {
    let a = ApiKeyPlaintext("key-a".to_string()).hash();
    let b = ApiKeyPlaintext("key-b".to_string()).hash();
    assert_ne!(a, b);
}

#[test]
fn api_key_hash_matches_known_sha256_digest() {
    // SHA-256("abc"), the FIPS 180-2 test vector.
    let h = ApiKeyPlaintext("abc".to_string()).hash();
    assert_eq!(h.0, "ba7816bf8f01cfea414140de5dae2223b00361a396177a9cb410ff61f20015ad");
    let empty = ApiKeyPlaintext(String::new()).hash();
    assert_eq!(empty.0, "e3b0c44298fc1c149afbf4c8996fb92427ae41e4649b934ca495991b7852b855");
}

#[test]
fn lang_code_round_trips() {
    for lang in [Lang::En, Lang::Es, Lang::Pt, Lang::Ja, Lang::Zh] {
        assert_eq!(Lang::parse_or_default(Some(lang.code())), lang);
    }
    // codes are matched exactly, case included
    assert_eq!(Lang::parse_or_default(Some("ES")), Lang::En);
}

#[test]
fn fx_currency_parses_supported_codes_only() {
    for c in [FxCurrency::Brl, FxCurrency::Cny, FxCurrency::Jpy, FxCurrency::Eur, FxCurrency::Krw] {
        assert_eq!(FxCurrency::parse(c.code()), Some(c));
    }
    assert_eq!(FxCurrency::parse("BRL"), Some(FxCurrency::Brl));
    assert_eq!(FxCurrency::parse("brl"), None);
    assert_eq!(FxCurrency::parse("USD"), None);
    assert_eq!(FxCurrency::parse(""), None);
}

#[test]
fn pagination_keeps_in_range_values() {
    let p = Pagination::new(Some(20), Some(40), 50, 500);
    assert_eq!(p.limit, 20);
    assert_eq!(p.offset, 40);
    let p = Pagination::new(Some(0), Some(0), 50, 500);
    assert_eq!(p.limit, 1);
    let p = Pagination::new(Some(i64::MAX), Some(i64::MIN), 50, 500);
    assert_eq!(p.limit, 500);
    assert_eq!(p.offset, 0);
}

#[test]
fn newtypes_expose_their_text() {
    assert_eq!(MarketSlug("japan".to_string()).as_str(), "japan");
    assert_eq!(Symbol("AAPL".to_string()).as_str(), "AAPL");
    assert_eq!(AssetId(7), AssetId(7));
}
