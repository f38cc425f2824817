//! Newtypes for the domain's primitive values, the supported response languages and
//! currencies, API-key hashing, and clamped pagination.

use vstd::prelude::*;

use super::digest::{is_lower_hex_digit, key_hash_hex, sha256_hex};
use crate::text::str_eq;

verus! {

/// Identifier of an asset row.
#[derive(Debug, Clone, Copy, PartialEq, Eq, Hash, Structural)]
pub struct AssetId(pub i64);

/// A market's slug, such as `us` or `crypto`.
#[derive(Debug, Clone, PartialEq, Eq, Hash)]
pub struct MarketSlug(pub String);

impl MarketSlug {
    pub fn as_str(&self) -> (r: &str)
        ensures
            r@ == self.0@,
    {
        self.0.as_str()
    }
}

/// An asset's ticker or external identifier.
#[derive(Debug, Clone, PartialEq, Eq, Hash)]
pub struct Symbol(pub String);

impl Symbol {
    pub fn as_str(&self) -> (r: &str)
        ensures
            r@ == self.0@,
    {
        self.0.as_str()
    }
}

/// The response languages that localized fields are served in.
#[derive(Debug, Clone, Copy, PartialEq, Eq, Structural)]
pub enum Lang {
    En,
    Es,
    Pt,
    Ja,
    Zh,
}

/// The two-letter code of a language.
pub open spec fn lang_code(lang: Lang) -> Seq<char> {
    match lang {
        Lang::En => seq!['e', 'n'],
        Lang::Es => seq!['e', 's'],
        Lang::Pt => seq!['p', 't'],
        Lang::Ja => seq!['j', 'a'],
        Lang::Zh => seq!['z', 'h'],
    }
}

/// The language a query value selects: one of the four non-English codes, exactly
/// as written, selects that language; anything else, or no value, selects English.
pub open spec fn lang_from(value: Option<Seq<char>>) -> Lang {
    match value {
        Some(v) => if v == lang_code(Lang::Es) {
            Lang::Es
        } else if v == lang_code(Lang::Pt) {
            Lang::Pt
        } else if v == lang_code(Lang::Ja) {
            Lang::Ja
        } else if v == lang_code(Lang::Zh) {
            Lang::Zh
        } else {
            Lang::En
        },
        None => Lang::En,
    }
}

pub open spec fn opt_str_view(value: Option<&str>) -> Option<Seq<char>> {
    match value {
        Some(s) => Some(s@),
        None => None,
    }
}

impl Lang {
    pub fn code(self) -> (r: &'static str)
        ensures
            r@ == lang_code(self),
    {
        proof {
            reveal_strlit("en");
            assert("en"@ =~= seq!['e', 'n']);
            reveal_strlit("es");
            assert("es"@ =~= seq!['e', 's']);
            reveal_strlit("pt");
            assert("pt"@ =~= seq!['p', 't']);
            reveal_strlit("ja");
            assert("ja"@ =~= seq!['j', 'a']);
            reveal_strlit("zh");
            assert("zh"@ =~= seq!['z', 'h']);
        }
        match self {
            Lang::En => "en",
            Lang::Es => "es",
            Lang::Pt => "pt",
            Lang::Ja => "ja",
            Lang::Zh => "zh",
        }
    }

    /// An absent or unrecognized value defaults to `En` rather than erroring.
    pub fn parse_or_default(value: Option<&str>) -> (r: Lang)
        ensures
            r == lang_from(opt_str_view(value)),
    {
        proof {
            reveal_strlit("es");
            assert("es"@ =~= seq!['e', 's']);
            reveal_strlit("pt");
            assert("pt"@ =~= seq!['p', 't']);
            reveal_strlit("ja");
            assert("ja"@ =~= seq!['j', 'a']);
            reveal_strlit("zh");
            assert("zh"@ =~= seq!['z', 'h']);
        }
        match value {
            Some(v) => {
                if str_eq(v, "es") {
                    Lang::Es
                } else if str_eq(v, "pt") {
                    Lang::Pt
                } else if str_eq(v, "ja") {
                    Lang::Ja
                } else if str_eq(v, "zh") {
                    Lang::Zh
                } else {
                    Lang::En
                }
            },
            None => Lang::En,
        }
    }
}

/// Every language's own code selects that language again.
pub proof fn lang_code_round_trip(lang: Lang)
    ensures
        lang_from(Some(lang_code(lang))) == lang,
{
    assert(lang_code(Lang::En) != lang_code(Lang::Es));
    assert(lang_code(Lang::En) != lang_code(Lang::Pt));
    assert(lang_code(Lang::En) != lang_code(Lang::Ja));
    assert(lang_code(Lang::En) != lang_code(Lang::Zh));
    assert(lang_code(Lang::Es) != lang_code(Lang::Pt));
    assert(lang_code(Lang::Es) != lang_code(Lang::Ja));
    assert(lang_code(Lang::Es) != lang_code(Lang::Zh));
    assert(lang_code(Lang::Pt) != lang_code(Lang::Ja));
    assert(lang_code(Lang::Pt) != lang_code(Lang::Zh));
    assert(lang_code(Lang::Ja) != lang_code(Lang::Zh));
}

/// Law: a value selects the language whose code it is; a value that is no
/// language's code, or no value, selects English.
pub proof fn lang_selection(value: Option<Seq<char>>)
    ensures
        match value {
            Some(v) => lang_code(lang_from(value)) == v || (lang_from(value) == Lang::En && forall|l: Lang|
                lang_code(l) != v),
            None => lang_from(value) == Lang::En,
        },
{
    if let Some(v) = value {
        if lang_from(value) == Lang::En && v != lang_code(Lang::En) {
            assert forall|l: Lang| lang_code(l) != v by {
                match l {
                    Lang::En => {},
                    Lang::Es => {},
                    Lang::Pt => {},
                    Lang::Ja => {},
                    Lang::Zh => {},
                }
            }
        }
    }
}

/// The currencies that daily FX rates are served for.
#[derive(Debug, Clone, Copy, PartialEq, Eq, Structural)]
pub enum FxCurrency {
    Brl,
    Cny,
    Jpy,
    Eur,
    Krw,
}

/// The ISO 4217 code of a currency.
pub open spec fn fx_code(currency: FxCurrency) -> Seq<char> {
    match currency {
        FxCurrency::Brl => seq!['B', 'R', 'L'],
        FxCurrency::Cny => seq!['C', 'N', 'Y'],
        FxCurrency::Jpy => seq!['J', 'P', 'Y'],
        FxCurrency::Eur => seq!['E', 'U', 'R'],
        FxCurrency::Krw => seq!['K', 'R', 'W'],
    }
}

/// The currency whose code is exactly `value`, if any.
pub open spec fn fx_from(value: Seq<char>) -> Option<FxCurrency> {
    if value == fx_code(FxCurrency::Brl) {
        Some(FxCurrency::Brl)
    } else if value == fx_code(FxCurrency::Cny) {
        Some(FxCurrency::Cny)
    } else if value == fx_code(FxCurrency::Jpy) {
        Some(FxCurrency::Jpy)
    } else if value == fx_code(FxCurrency::Eur) {
        Some(FxCurrency::Eur)
    } else if value == fx_code(FxCurrency::Krw) {
        Some(FxCurrency::Krw)
    } else {
        None
    }
}

impl FxCurrency {
    pub fn code(self) -> (r: &'static str)
        ensures
            r@ == fx_code(self),
    {
        proof {
            reveal_strlit("BRL");
            assert("BRL"@ =~= seq!['B', 'R', 'L']);
            reveal_strlit("CNY");
            assert("CNY"@ =~= seq!['C', 'N', 'Y']);
            reveal_strlit("JPY");
            assert("JPY"@ =~= seq!['J', 'P', 'Y']);
            reveal_strlit("EUR");
            assert("EUR"@ =~= seq!['E', 'U', 'R']);
            reveal_strlit("KRW");
            assert("KRW"@ =~= seq!['K', 'R', 'W']);
        }
        match self {
            FxCurrency::Brl => "BRL",
            FxCurrency::Cny => "CNY",
            FxCurrency::Jpy => "JPY",
            FxCurrency::Eur => "EUR",
            FxCurrency::Krw => "KRW",
        }
    }

    /// The currency named by `value`, which must be one of the supported codes
    /// exactly as written.
    pub fn parse(value: &str) -> (r: Option<FxCurrency>)
        ensures
            r == fx_from(value@),
    {
        proof {
            reveal_strlit("BRL");
            assert("BRL"@ =~= seq!['B', 'R', 'L']);
            reveal_strlit("CNY");
            assert("CNY"@ =~= seq!['C', 'N', 'Y']);
            reveal_strlit("JPY");
            assert("JPY"@ =~= seq!['J', 'P', 'Y']);
            reveal_strlit("EUR");
            assert("EUR"@ =~= seq!['E', 'U', 'R']);
            reveal_strlit("KRW");
            assert("KRW"@ =~= seq!['K', 'R', 'W']);
        }
        if str_eq(value, "BRL") {
            Some(FxCurrency::Brl)
        } else if str_eq(value, "CNY") {
            Some(FxCurrency::Cny)
        } else if str_eq(value, "JPY") {
            Some(FxCurrency::Jpy)
        } else if str_eq(value, "EUR") {
            Some(FxCurrency::Eur)
        } else if str_eq(value, "KRW") {
            Some(FxCurrency::Krw)
        } else {
            None
        }
    }
}

/// Every supported currency's code parses back to that currency.
pub proof fn fx_code_round_trip(currency: FxCurrency)
    ensures
        fx_from(fx_code(currency)) == Some(currency),
{
    assert(fx_code(FxCurrency::Brl) != fx_code(FxCurrency::Cny));
    assert(fx_code(FxCurrency::Brl) != fx_code(FxCurrency::Jpy));
    assert(fx_code(FxCurrency::Brl) != fx_code(FxCurrency::Eur));
    assert(fx_code(FxCurrency::Brl) != fx_code(FxCurrency::Krw));
    assert(fx_code(FxCurrency::Cny) != fx_code(FxCurrency::Jpy));
    assert(fx_code(FxCurrency::Cny) != fx_code(FxCurrency::Eur));
    assert(fx_code(FxCurrency::Cny) != fx_code(FxCurrency::Krw));
    assert(fx_code(FxCurrency::Jpy) != fx_code(FxCurrency::Eur));
    assert(fx_code(FxCurrency::Jpy) != fx_code(FxCurrency::Krw));
    assert(fx_code(FxCurrency::Eur) != fx_code(FxCurrency::Krw));
}

/// Law: a value selects the currency whose code it is, and none when it is no
/// supported currency's code.
pub proof fn fx_selection(value: Seq<char>)
    ensures
        match fx_from(value) {
            Some(c) => fx_code(c) == value,
            None => forall|c: FxCurrency| fx_code(c) != value,
        },
{
    if fx_from(value) is None {
        assert forall|c: FxCurrency| fx_code(c) != value by {
            match c {
                FxCurrency::Brl => {},
                FxCurrency::Cny => {},
                FxCurrency::Jpy => {},
                FxCurrency::Eur => {},
                FxCurrency::Krw => {},
            }
        }
    }
}

/// The plaintext value of an API key as presented in the `x-api-key` header. Only
/// ever hashed before it is compared with anything stored.
#[derive(Debug, Clone)]
pub struct ApiKeyPlaintext(pub String);

/// The SHA-256 hex digest of an API key: what is stored and compared.
#[derive(Debug, Clone, PartialEq, Eq)]
pub struct ApiKeyHash(pub String);

impl ApiKeyPlaintext {
    /// SHA-256 over the key's UTF-8 bytes, as 64 lowercase hex digits.
    pub fn hash(&self) -> (r: ApiKeyHash)
        ensures
            r.0@ == key_hash_hex(self.0@),
            r.0@.len() == 64,
            forall|i: int| 0 <= i < r.0@.len() ==> is_lower_hex_digit(#[trigger] r.0@[i]),
    {
        ApiKeyHash(sha256_hex(self.0.as_str()))
    }
}

/// Validated limit/offset of a paginated query.
#[derive(Debug, Clone, Copy)]
pub struct Pagination {
    pub limit: i64,
    pub offset: i64,
}

/// `v` brought into `[lo, hi]`.
pub open spec fn clamp(v: int, lo: int, hi: int) -> int {
    if v < lo {
        lo
    } else if v > hi {
        hi
    } else {
        v
    }
}

pub open spec fn or_default(v: Option<i64>, default: i64) -> int {
    match v {
        Some(x) => x as int,
        None => default as int,
    }
}

/// `v` brought into `[lo, hi]`.
pub fn clamp_i64(v: i64, lo: i64, hi: i64) -> (r: i64)
    requires
        lo <= hi,
    ensures
        r == clamp(v as int, lo as int, hi as int),
{
    if v < lo {
        lo
    } else if v > hi {
        hi
    } else {
        v
    }
}

impl Pagination {
    /// The limit is the given one (or `default_limit`) clamped into `[1, max_limit]`;
    /// the offset is the given one (or 0), raised to 0 when negative.
    pub fn new(limit: Option<i64>, offset: Option<i64>, default_limit: i64, max_limit: i64) -> (r: Pagination)
        requires
            1 <= max_limit,
        ensures
            r.limit == clamp(or_default(limit, default_limit), 1, max_limit as int),
            r.offset == if or_default(offset, 0) < 0 { 0 } else { or_default(offset, 0) },
            1 <= r.limit <= max_limit,
            0 <= r.offset,
            (limit matches Some(v) && 1 <= v <= max_limit) ==> r.limit == limit->0,
            limit is None && 1 <= default_limit <= max_limit ==> r.limit == default_limit,
            (offset matches Some(v) && v >= 0) ==> r.offset == offset->0,
    {
        let l = match limit {
            Some(v) => v,
            None => default_limit,
        };
        let o = match offset {
            Some(v) => v,
            None => 0,
        };
        Pagination { limit: clamp_i64(l, 1, max_limit), offset: if o < 0 { 0 } else { o } }
    }
}

} // verus!
