//! The statements the repositories run, as sequences of SQL text and bound values.
//! A caller replays the pieces into a query builder: text is pushed as SQL, each
//! bound value becomes the next positional parameter.

use vstd::prelude::*;

use crate::domain::dates::Date;
use crate::domain::models::{AssetLookup, AssetQuery};
use crate::domain::types::{lang_code, fx_code, ApiKeyHash, AssetId, FxCurrency, Lang};
use crate::text::push_char;

verus! {

/// A value bound to a statement parameter.
#[derive(Debug)]
pub enum SqlArg {
    Text(String),
    BigInt(i64),
    Date(Date),
}

/// A piece of a statement: literal SQL text, or a bound value.
#[derive(Debug)]
pub enum SqlPiece {
    Sql(String),
    Bind(SqlArg),
}

/// A statement to run.
#[derive(Debug)]
pub struct Statement {
    pub pieces: Vec<SqlPiece>,
}

/// The value of a bound parameter.
pub enum ArgModel {
    Text(Seq<char>),
    BigInt(int),
    Date(Date),
}

/// A statement piece by its value.
pub enum PieceModel {
    Sql(Seq<char>),
    Bind(ArgModel),
}

impl View for SqlPiece {
    type V = PieceModel;

    open spec fn view(&self) -> PieceModel {
        match self {
            SqlPiece::Sql(t) => PieceModel::Sql(t@),
            SqlPiece::Bind(SqlArg::Text(t)) => PieceModel::Bind(ArgModel::Text(t@)),
            SqlPiece::Bind(SqlArg::BigInt(v)) => PieceModel::Bind(ArgModel::BigInt(*v as int)),
            SqlPiece::Bind(SqlArg::Date(d)) => PieceModel::Bind(ArgModel::Date(*d)),
        }
    }
}

impl Statement {
    pub open spec fn model(self) -> Seq<PieceModel> {
        self.pieces@.map_values(|p: SqlPiece| p@)
    }
}

/// What a piece contributes to the SQL text: its text, or a parameter placeholder.
pub open spec fn shape(p: PieceModel) -> Option<Seq<char>> {
    match p {
        PieceModel::Sql(t) => Some(t),
        PieceModel::Bind(_) => None,
    }
}

pub open spec fn shapes(ps: Seq<PieceModel>) -> Seq<Option<Seq<char>>> {
    ps.map_values(|p: PieceModel| shape(p))
}

pub open spec fn sql(t: Seq<char>) -> PieceModel {
    PieceModel::Sql(t)
}

pub open spec fn text(t: Seq<char>) -> PieceModel {
    PieceModel::Bind(ArgModel::Text(t))
}

pub open spec fn big_int(v: int) -> PieceModel {
    PieceModel::Bind(ArgModel::BigInt(v))
}

pub open spec fn date(d: Date) -> PieceModel {
    PieceModel::Bind(ArgModel::Date(d))
}

/// `%search%`: the `ILIKE` pattern of a search term (bound, never spliced into SQL).
pub open spec fn contains_pattern(search: Seq<char>) -> Seq<char> {
    seq!['%'] + search + seq!['%']
}

pub open spec fn asset_list_head() -> Seq<PieceModel> {
    seq![
        sql("SELECT a.id, a.symbol, a.name, a.asset_type::text AS asset_type, a.currency, m.slug AS market, COALESCE(m.name ->> "@),
    ]
}

pub open spec fn asset_list_from() -> Seq<PieceModel> {
    seq![
        sql(", m.name ->> 'en') AS market_name, a.index_name FROM assets a JOIN markets m ON m.id = a.market_id WHERE a.is_active"@),
    ]
}

pub open spec fn asset_type_filter(t: Option<String>) -> Seq<PieceModel> {
    match t {
        Some(v) => seq![sql(" AND a.asset_type = "@), text(v@), sql("::asset_type"@)],
        None => seq![],
    }
}

pub open spec fn market_filter(m: Option<String>) -> Seq<PieceModel> {
    match m {
        Some(v) => seq![sql(" AND m.slug = "@), text(v@)],
        None => seq![],
    }
}

pub open spec fn search_filter(s: Option<String>) -> Seq<PieceModel> {
    match s {
        Some(v) => seq![
            sql(" AND (a.symbol ILIKE "@),
            text(contains_pattern(v@)),
            sql(" OR a.name ILIKE "@),
            text(contains_pattern(v@)),
            sql(")"@),
        ],
        None => seq![],
    }
}

/// The asset listing: active assets with their market, the market's name in the
/// query's language (English when it has none), narrowed by asset type, market slug,
/// and a case-insensitive substring of symbol or name, ordered by symbol, one page.
pub open spec fn asset_list_model(q: AssetQuery) -> Seq<PieceModel> {
    asset_list_head() + seq![text(lang_code(q.lang))] + asset_list_from() + asset_type_filter(q.filter.asset_type)
        + market_filter(q.filter.market) + search_filter(q.filter.search) + seq![
        sql(" ORDER BY a.symbol LIMIT "@),
        big_int(q.pagination.limit as int),
        sql(" OFFSET "@),
        big_int(q.pagination.offset as int),
    ]
}

fn sql_piece(t: &str) -> (r: SqlPiece)
    ensures
        r@ == sql(t@),
{
    SqlPiece::Sql(String::from_str(t))
}

fn text_piece(t: &str) -> (r: SqlPiece)
    ensures
        r@ == text(t@),
{
    SqlPiece::Bind(SqlArg::Text(String::from_str(t)))
}

fn big_int_piece(v: i64) -> (r: SqlPiece)
    ensures
        r@ == big_int(v as int),
{
    SqlPiece::Bind(SqlArg::BigInt(v))
}

fn date_piece(d: Date) -> (r: SqlPiece)
    ensures
        r@ == date(d),
{
    SqlPiece::Bind(SqlArg::Date(d))
}

/// `%search%` for a search term.
pub fn contains_pattern_of(search: &str) -> (r: String)
    ensures
        r@ == contains_pattern(search@),
{
    let mut p = String::new();
    push_char(&mut p, '%');
    p.append(search);
    push_char(&mut p, '%');
    p
}

fn push_piece(v: &mut Vec<SqlPiece>, p: SqlPiece)
    ensures
        final(v)@.map_values(|x: SqlPiece| x@) == old(v)@.map_values(|x: SqlPiece| x@).push(p@),
{
    let ghost before = v@;
    v.push(p);
    assert(v@.map_values(|x: SqlPiece| x@) =~= before.map_values(|x: SqlPiece| x@).push(p@));
}

/// The asset listing statement of a query.
pub fn asset_list_statement(q: &AssetQuery) -> (r: Statement)
    ensures
        r.model() == asset_list_model(*q),
{
    let mut v: Vec<SqlPiece> = Vec::new();
    push_piece(
        &mut v,
        sql_piece(
            "SELECT a.id, a.symbol, a.name, a.asset_type::text AS asset_type, a.currency, m.slug AS market, COALESCE(m.name ->> ",
        ),
    );
    push_piece(&mut v, text_piece(q.lang.code()));
    push_piece(
        &mut v,
        sql_piece(
            ", m.name ->> 'en') AS market_name, a.index_name FROM assets a JOIN markets m ON m.id = a.market_id WHERE a.is_active",
        ),
    );
    let ghost base = v@.map_values(|x: SqlPiece| x@);
    assert(base =~= asset_list_head() + seq![text(lang_code(q.lang))] + asset_list_from());
    if let Some(t) = &q.filter.asset_type {
        push_piece(&mut v, sql_piece(" AND a.asset_type = "));
        push_piece(&mut v, text_piece(t.as_str()));
        push_piece(&mut v, sql_piece("::asset_type"));
    }
    let ghost with_type = v@.map_values(|x: SqlPiece| x@);
    assert(with_type =~= base + asset_type_filter(q.filter.asset_type));
    if let Some(m) = &q.filter.market {
        push_piece(&mut v, sql_piece(" AND m.slug = "));
        push_piece(&mut v, text_piece(m.as_str()));
    }
    let ghost with_market = v@.map_values(|x: SqlPiece| x@);
    assert(with_market =~= with_type + market_filter(q.filter.market));
    if let Some(s) = &q.filter.search {
        let pattern = contains_pattern_of(s.as_str());
        push_piece(&mut v, sql_piece(" AND (a.symbol ILIKE "));
        push_piece(&mut v, text_piece(pattern.as_str()));
        push_piece(&mut v, sql_piece(" OR a.name ILIKE "));
        push_piece(&mut v, text_piece(pattern.as_str()));
        push_piece(&mut v, sql_piece(")"));
    }
    let ghost with_search = v@.map_values(|x: SqlPiece| x@);
    assert(with_search =~= with_market + search_filter(q.filter.search));
    push_piece(&mut v, sql_piece(" ORDER BY a.symbol LIMIT "));
    push_piece(&mut v, big_int_piece(q.pagination.limit));
    push_piece(&mut v, sql_piece(" OFFSET "));
    push_piece(&mut v, big_int_piece(q.pagination.offset));
    assert(v@.map_values(|x: SqlPiece| x@) =~= asset_list_model(*q));
    Statement { pieces: v }
}


proof fn lemma_shapes_add(a: Seq<PieceModel>, b: Seq<PieceModel>)
    ensures
        shapes(a + b) == shapes(a) + shapes(b),
{
    assert(shapes(a + b) =~= shapes(a) + shapes(b));
}

/// Law: the SQL text of the asset listing depends only on which filters are given.
/// Two queries with the same filters present yield the same text, parameter slots
/// included; their type, market, search, language and page only ever reach the
/// database as bound values.
pub proof fn asset_list_text_ignores_values(q1: AssetQuery, q2: AssetQuery)
    requires
        q1.filter.asset_type.is_some() == q2.filter.asset_type.is_some(),
        q1.filter.market.is_some() == q2.filter.market.is_some(),
        q1.filter.search.is_some() == q2.filter.search.is_some(),
    ensures
        shapes(asset_list_model(q1)) == shapes(asset_list_model(q2)),
{
    let tail1 = seq![
        sql(" ORDER BY a.symbol LIMIT "@),
        big_int(q1.pagination.limit as int),
        sql(" OFFSET "@),
        big_int(q1.pagination.offset as int),
    ];
    let tail2 = seq![
        sql(" ORDER BY a.symbol LIMIT "@),
        big_int(q2.pagination.limit as int),
        sql(" OFFSET "@),
        big_int(q2.pagination.offset as int),
    ];
    let l1 = seq![text(lang_code(q1.lang))];
    let l2 = seq![text(lang_code(q2.lang))];
    let a = asset_list_head();
    let f = asset_list_from();
    let t1 = asset_type_filter(q1.filter.asset_type);
    let t2 = asset_type_filter(q2.filter.asset_type);
    let m1 = market_filter(q1.filter.market);
    let m2 = market_filter(q2.filter.market);
    let s1 = search_filter(q1.filter.search);
    let s2 = search_filter(q2.filter.search);
    lemma_shapes_add(a + l1 + f + t1 + m1 + s1, tail1);
    lemma_shapes_add(a + l1 + f + t1 + m1, s1);
    lemma_shapes_add(a + l1 + f + t1, m1);
    lemma_shapes_add(a + l1 + f, t1);
    lemma_shapes_add(a + l1, f);
    lemma_shapes_add(a, l1);
    lemma_shapes_add(a + l2 + f + t2 + m2 + s2, tail2);
    lemma_shapes_add(a + l2 + f + t2 + m2, s2);
    lemma_shapes_add(a + l2 + f + t2, m2);
    lemma_shapes_add(a + l2 + f, t2);
    lemma_shapes_add(a + l2, f);
    lemma_shapes_add(a, l2);
    assert(shapes(l1) =~= shapes(l2));
    assert(shapes(t1) =~= shapes(t2));
    assert(shapes(m1) =~= shapes(m2));
    assert(shapes(s1) =~= shapes(s2));
    assert(shapes(tail1) =~= shapes(tail2));
}


/// Resolving a lookup: an id is checked against the asset table (an unknown id
/// resolves to nothing); a (market, symbol) pair is matched against the market's
/// slug and the asset's external id.
pub open spec fn resolve_model(lookup: AssetLookup) -> Seq<PieceModel> {
    match lookup {
        AssetLookup::Id(id) => seq![sql("SELECT id FROM assets WHERE id = "@), big_int(id.0 as int)],
        AssetLookup::MarketSymbol { market, symbol } => seq![
            sql("SELECT a.id FROM assets a JOIN markets m ON m.id = a.market_id WHERE m.slug = "@),
            text(market@),
            sql(" AND a.external_id = "@),
            text(symbol@),
        ],
    }
}

/// The statement that resolves a lookup to an asset id.
pub fn resolve_statement(lookup: &AssetLookup) -> (r: Statement)
    ensures
        r.model() == resolve_model(*lookup),
{
    let mut v: Vec<SqlPiece> = Vec::new();
    match lookup {
        AssetLookup::Id(id) => {
            push_piece(&mut v, sql_piece("SELECT id FROM assets WHERE id = "));
            push_piece(&mut v, big_int_piece(id.0));
        },
        AssetLookup::MarketSymbol { market, symbol } => {
            push_piece(
                &mut v,
                sql_piece("SELECT a.id FROM assets a JOIN markets m ON m.id = a.market_id WHERE m.slug = "),
            );
            push_piece(&mut v, text_piece(market.as_str()));
            push_piece(&mut v, sql_piece(" AND a.external_id = "));
            push_piece(&mut v, text_piece(symbol.as_str()));
        },
    }
    assert(v@.map_values(|x: SqlPiece| x@) =~= resolve_model(*lookup));
    Statement { pieces: v }
}

/// The catalog entry of an asset, with `founded` and `history` in the language
/// (English where that language has none).
pub open spec fn catalog_model(asset_id: AssetId, lang: Lang) -> Seq<PieceModel> {
    seq![
        sql("SELECT asset_id, founders, COALESCE(founded ->> "@),
        text(lang_code(lang)),
        sql(", founded ->> 'en') AS founded, COALESCE(history ->> "@),
        text(lang_code(lang)),
        sql(", history ->> 'en') AS history, official_website, logo_url, info_url, issuer, index_provider, inception_date FROM asset_catalog WHERE asset_id = "@),
        big_int(asset_id.0 as int),
    ]
}

/// The statement that fetches an asset's catalog entry.
pub fn catalog_statement(asset_id: AssetId, lang: Lang) -> (r: Statement)
    ensures
        r.model() == catalog_model(asset_id, lang),
{
    let mut v: Vec<SqlPiece> = Vec::new();
    push_piece(&mut v, sql_piece("SELECT asset_id, founders, COALESCE(founded ->> "));
    push_piece(&mut v, text_piece(lang.code()));
    push_piece(&mut v, sql_piece(", founded ->> 'en') AS founded, COALESCE(history ->> "));
    push_piece(&mut v, text_piece(lang.code()));
    push_piece(
        &mut v,
        sql_piece(
            ", history ->> 'en') AS history, official_website, logo_url, info_url, issuer, index_provider, inception_date FROM asset_catalog WHERE asset_id = ",
        ),
    );
    push_piece(&mut v, big_int_piece(asset_id.0));
    assert(v@.map_values(|x: SqlPiece| x@) =~= catalog_model(asset_id, lang));
    Statement { pieces: v }
}

/// At most `limit` daily bars of the asset dated within `[from, to]`, oldest first.
pub open spec fn price_history_model(asset_id: AssetId, from: Date, to: Date, limit: i64) -> Seq<PieceModel> {
    seq![
        sql("SELECT date, open, high, low, close, volume FROM daily_prices WHERE asset_id = "@),
        big_int(asset_id.0 as int),
        sql(" AND date BETWEEN "@),
        date(from),
        sql(" AND "@),
        date(to),
        sql(" ORDER BY date ASC LIMIT "@),
        big_int(limit as int),
    ]
}

/// The statement that fetches an asset's daily bars.
pub fn price_history_statement(asset_id: AssetId, from: Date, to: Date, limit: i64) -> (r: Statement)
    ensures
        r.model() == price_history_model(asset_id, from, to, limit),
{
    let mut v: Vec<SqlPiece> = Vec::new();
    push_piece(&mut v, sql_piece("SELECT date, open, high, low, close, volume FROM daily_prices WHERE asset_id = "));
    push_piece(&mut v, big_int_piece(asset_id.0));
    push_piece(&mut v, sql_piece(" AND date BETWEEN "));
    push_piece(&mut v, date_piece(from));
    push_piece(&mut v, sql_piece(" AND "));
    push_piece(&mut v, date_piece(to));
    push_piece(&mut v, sql_piece(" ORDER BY date ASC LIMIT "));
    push_piece(&mut v, big_int_piece(limit));
    assert(v@.map_values(|x: SqlPiece| x@) =~= price_history_model(asset_id, from, to, limit));
    Statement { pieces: v }
}

/// At most `limit` daily rates of the currency dated within `[from, to]`, oldest first.
pub open spec fn fx_history_model(currency: FxCurrency, from: Date, to: Date, limit: i64) -> Seq<PieceModel> {
    seq![
        sql("SELECT date, open, high, low, close FROM fx_rates WHERE currency = "@),
        text(fx_code(currency)),
        sql(" AND date BETWEEN "@),
        date(from),
        sql(" AND "@),
        date(to),
        sql(" ORDER BY date ASC LIMIT "@),
        big_int(limit as int),
    ]
}

/// The statement that fetches a currency's daily rates.
pub fn fx_history_statement(currency: FxCurrency, from: Date, to: Date, limit: i64) -> (r: Statement)
    ensures
        r.model() == fx_history_model(currency, from, to, limit),
{
    let mut v: Vec<SqlPiece> = Vec::new();
    push_piece(&mut v, sql_piece("SELECT date, open, high, low, close FROM fx_rates WHERE currency = "));
    push_piece(&mut v, text_piece(currency.code()));
    push_piece(&mut v, sql_piece(" AND date BETWEEN "));
    push_piece(&mut v, date_piece(from));
    push_piece(&mut v, sql_piece(" AND "));
    push_piece(&mut v, date_piece(to));
    push_piece(&mut v, sql_piece(" ORDER BY date ASC LIMIT "));
    push_piece(&mut v, big_int_piece(limit));
    assert(v@.map_values(|x: SqlPiece| x@) =~= fx_history_model(currency, from, to, limit));
    Statement { pieces: v }
}

/// The id of the active, non-revoked key stored under this hash.
pub open spec fn key_lookup_model(hash: Seq<char>) -> Seq<PieceModel> {
    seq![
        sql("SELECT id FROM api_keys WHERE key_hash = "@),
        text(hash),
        sql(" AND is_active AND revoked_at IS NULL"@),
    ]
}

/// The statement that looks a key hash up.
pub fn key_lookup_statement(hash: &ApiKeyHash) -> (r: Statement)
    ensures
        r.model() == key_lookup_model(hash.0@),
{
    let mut v: Vec<SqlPiece> = Vec::new();
    push_piece(&mut v, sql_piece("SELECT id FROM api_keys WHERE key_hash = "));
    push_piece(&mut v, text_piece(hash.0.as_str()));
    push_piece(&mut v, sql_piece(" AND is_active AND revoked_at IS NULL"));
    assert(v@.map_values(|x: SqlPiece| x@) =~= key_lookup_model(hash.0@));
    Statement { pieces: v }
}

/// Records that the key with this id was just used.
pub open spec fn key_usage_model(key_id: i64) -> Seq<PieceModel> {
    seq![sql("UPDATE api_keys SET last_used_at = now() WHERE id = "@), big_int(key_id as int)]
}

/// What the key check concludes from the lookup's row.
#[derive(Debug)]
pub struct KeyCheck {
    /// Whether the key is accepted.
    pub accepted: bool,
    /// The usage to record, best-effort: its failure never fails the check.
    pub record_usage: Option<Statement>,
}

/// A found key is accepted, and its use is recorded; no row means the key is refused
/// and nothing is written.
pub fn key_check(row: Option<i64>) -> (r: KeyCheck)
    ensures
        r.accepted == row.is_some(),
        match row {
            Some(id) => r.record_usage matches Some(st) && st.model() == key_usage_model(id),
            None => r.record_usage is None,
        },
{
    match row {
        Some(id) => {
            let mut v: Vec<SqlPiece> = Vec::new();
            push_piece(&mut v, sql_piece("UPDATE api_keys SET last_used_at = now() WHERE id = "));
            push_piece(&mut v, big_int_piece(id));
            assert(v@.map_values(|x: SqlPiece| x@) =~= key_usage_model(id));
            KeyCheck { accepted: true, record_usage: Some(Statement { pieces: v }) }
        },
        None => KeyCheck { accepted: false, record_usage: None },
    }
}

/// A resolve query's row, as the resolved asset.
pub fn resolved_asset(row: Option<i64>) -> (r: Option<AssetId>)
    ensures
        match row {
            Some(id) => r == Some(AssetId(id)),
            None => r is None,
        },
{
    match row {
        Some(id) => Some(AssetId(id)),
        None => None,
    }
}


/// The homepage's markets table: every market but crypto, with its number of
/// assets, most assets first, then by name.
pub open spec fn markets_table_model() -> Seq<PieceModel> {
    seq![
        sql("SELECT m.slug, m.name, m.exchange, m.currency, m.country_code, count(a.id) FROM markets m LEFT JOIN assets a ON a.market_id = m.id WHERE m.slug != 'crypto' GROUP BY m.id ORDER BY count(a.id) DESC, m.name"@),
    ]
}

pub fn markets_table_statement() -> (r: Statement)
    ensures
        r.model() == markets_table_model(),
{
    let mut v: Vec<SqlPiece> = Vec::new();
    push_piece(
        &mut v,
        sql_piece(
            "SELECT m.slug, m.name, m.exchange, m.currency, m.country_code, count(a.id) FROM markets m LEFT JOIN assets a ON a.market_id = m.id WHERE m.slug != 'crypto' GROUP BY m.id ORDER BY count(a.id) DESC, m.name",
        ),
    );
    assert(v@.map_values(|x: SqlPiece| x@) =~= markets_table_model());
    Statement { pieces: v }
}

/// The homepage's US stocks table: active assets of the `us` market by type, then symbol.
pub open spec fn stocks_table_model() -> Seq<PieceModel> {
    seq![
        sql("SELECT a.symbol, a.name, a.asset_type::text FROM assets a JOIN markets m ON m.id = a.market_id WHERE m.slug = 'us' AND a.is_active ORDER BY a.asset_type, a.symbol"@),
    ]
}

pub fn stocks_table_statement() -> (r: Statement)
    ensures
        r.model() == stocks_table_model(),
{
    let mut v: Vec<SqlPiece> = Vec::new();
    push_piece(
        &mut v,
        sql_piece(
            "SELECT a.symbol, a.name, a.asset_type::text FROM assets a JOIN markets m ON m.id = a.market_id WHERE m.slug = 'us' AND a.is_active ORDER BY a.asset_type, a.symbol",
        ),
    );
    assert(v@.map_values(|x: SqlPiece| x@) =~= stocks_table_model());
    Statement { pieces: v }
}

/// The homepage's stablecoins table: active stablecoins of the crypto market by symbol.
pub open spec fn stablecoins_table_model() -> Seq<PieceModel> {
    seq![
        sql("SELECT a.symbol, a.name FROM assets a JOIN markets m ON m.id = a.market_id WHERE m.slug = 'crypto' AND a.asset_type = 'stablecoin' AND a.is_active ORDER BY a.symbol"@),
    ]
}

pub fn stablecoins_table_statement() -> (r: Statement)
    ensures
        r.model() == stablecoins_table_model(),
{
    let mut v: Vec<SqlPiece> = Vec::new();
    push_piece(
        &mut v,
        sql_piece(
            "SELECT a.symbol, a.name FROM assets a JOIN markets m ON m.id = a.market_id WHERE m.slug = 'crypto' AND a.asset_type = 'stablecoin' AND a.is_active ORDER BY a.symbol",
        ),
    );
    assert(v@.map_values(|x: SqlPiece| x@) =~= stablecoins_table_model());
    Statement { pieces: v }
}

/// The liveness probe's query.
pub open spec fn ping_model() -> Seq<PieceModel> {
    seq![sql("SELECT 1"@)]
}

pub fn ping_statement() -> (r: Statement)
    ensures
        r.model() == ping_model(),
{
    let mut v: Vec<SqlPiece> = Vec::new();
    push_piece(&mut v, sql_piece("SELECT 1"));
    assert(v@.map_values(|x: SqlPiece| x@) =~= ping_model());
    Statement { pieces: v }
}

/// The values a statement binds, in order.
pub open spec fn bound(ps: Seq<PieceModel>) -> Seq<ArgModel>
    decreases ps.len(),
{
    if ps.len() == 0 {
        seq![]
    } else {
        bound(ps.drop_last()) + bound_one(ps.last())
    }
}

proof fn lemma_bound_add(a: Seq<PieceModel>, b: Seq<PieceModel>)
    ensures
        bound(a + b) == bound(a) + bound(b),
    decreases b.len(),
{
    if b.len() == 0 {
        assert(a + b =~= a);
        assert(bound(a) + bound(b) =~= bound(a));
    } else {
        lemma_bound_add(a, b.drop_last());
        assert((a + b).drop_last() =~= a + b.drop_last());
        assert((a + b).last() == b.last());
        assert(bound(a) + bound(b) =~= bound(a) + bound(b.drop_last()) + bound_one(b.last()));
    }
}

proof fn lemma_bound_single(p: PieceModel)
    ensures
        bound(seq![p]) == bound_one(p),
{
    assert(seq![p].drop_last() =~= Seq::<PieceModel>::empty());
    assert(bound(Seq::<PieceModel>::empty()) =~= Seq::<ArgModel>::empty());
    assert(Seq::<ArgModel>::empty() + bound_one(p) =~= bound_one(p));
}

proof fn lemma_bound_small(p0: PieceModel, p1: PieceModel, p2: PieceModel, p3: PieceModel, p4: PieceModel)
    ensures
        bound(seq![p0]) == bound_one(p0),
        bound(seq![p0, p1]) == bound_one(p0) + bound_one(p1),
        bound(seq![p0, p1, p2]) == bound_one(p0) + bound_one(p1) + bound_one(p2),
        bound(seq![p0, p1, p2, p3]) == bound_one(p0) + bound_one(p1) + bound_one(p2) + bound_one(p3),
        bound(seq![p0, p1, p2, p3, p4]) == bound_one(p0) + bound_one(p1) + bound_one(p2) + bound_one(p3) + bound_one(
            p4,
        ),
{
    lemma_bound_single(p0);
    lemma_bound_single(p1);
    lemma_bound_single(p2);
    lemma_bound_single(p3);
    lemma_bound_single(p4);
    assert(seq![p0, p1] =~= seq![p0] + seq![p1]);
    lemma_bound_add(seq![p0], seq![p1]);
    assert(seq![p0, p1, p2] =~= seq![p0, p1] + seq![p2]);
    lemma_bound_add(seq![p0, p1], seq![p2]);
    assert(seq![p0, p1, p2, p3] =~= seq![p0, p1, p2] + seq![p3]);
    lemma_bound_add(seq![p0, p1, p2], seq![p3]);
    assert(seq![p0, p1, p2, p3, p4] =~= seq![p0, p1, p2, p3] + seq![p4]);
    lemma_bound_add(seq![p0, p1, p2, p3], seq![p4]);
}

pub open spec fn bound_one(p: PieceModel) -> Seq<ArgModel> {
    match p {
        PieceModel::Bind(a) => seq![a],
        PieceModel::Sql(_) => seq![],
    }
}

/// Law: the asset listing binds, in order, the language's code, the asset type and
/// the market slug when given, the search term wrapped in `%` twice (symbol and
/// name) when given, then the page's limit and offset -- and nothing else.
pub proof fn asset_list_binds(q: AssetQuery)
    ensures
        bound(asset_list_model(q)) == seq![ArgModel::Text(lang_code(q.lang))] + (match q.filter.asset_type {
            Some(t) => seq![ArgModel::Text(t@)],
            None => seq![],
        }) + (match q.filter.market {
            Some(m) => seq![ArgModel::Text(m@)],
            None => seq![],
        }) + (match q.filter.search {
            Some(v) => seq![
                ArgModel::Text(seq!['%'] + v@ + seq!['%']),
                ArgModel::Text(seq!['%'] + v@ + seq!['%']),
            ],
            None => seq![],
        }) + seq![ArgModel::BigInt(q.pagination.limit as int), ArgModel::BigInt(q.pagination.offset as int)],
{
    let a = asset_list_head();
    let l = seq![text(lang_code(q.lang))];
    let f = asset_list_from();
    let t = asset_type_filter(q.filter.asset_type);
    let m = market_filter(q.filter.market);
    let se = search_filter(q.filter.search);
    let tail = seq![
        sql(" ORDER BY a.symbol LIMIT "@),
        big_int(q.pagination.limit as int),
        sql(" OFFSET "@),
        big_int(q.pagination.offset as int),
    ];
    lemma_bound_add(a + l + f + t + m + se, tail);
    lemma_bound_add(a + l + f + t + m, se);
    lemma_bound_add(a + l + f + t, m);
    lemma_bound_add(a + l + f, t);
    lemma_bound_add(a + l, f);
    lemma_bound_add(a, l);
    let d = sql(""@);
    lemma_bound_small(a[0], d, d, d, d);
    lemma_bound_small(l[0], d, d, d, d);
    lemma_bound_small(f[0], d, d, d, d);
    lemma_bound_small(tail[0], tail[1], tail[2], tail[3], d);
    match q.filter.asset_type {
        Some(v) => lemma_bound_small(t[0], t[1], t[2], d, d),
        None => {},
    }
    match q.filter.market {
        Some(v) => lemma_bound_small(m[0], m[1], d, d, d),
        None => {},
    }
    match q.filter.search {
        Some(v) => lemma_bound_small(se[0], se[1], se[2], se[3], se[4]),
        None => {},
    }
    assert(bound(Seq::<PieceModel>::empty()) =~= Seq::<ArgModel>::empty());
}

/// Law: the remaining statements bind exactly their arguments, in order: a lookup's
/// id, or its market and symbol; a catalog entry's language twice and then its
/// asset; a history's asset or currency code, its two dates and its limit; a key
/// lookup's hash; a usage record's key id.
pub proof fn statement_binds(
    lookup: AssetLookup,
    asset_id: AssetId,
    lang: Lang,
    currency: FxCurrency,
    from: Date,
    to: Date,
    limit: i64,
    hash: Seq<char>,
    key_id: i64,
)
    ensures
        bound(resolve_model(lookup)) == match lookup {
            AssetLookup::Id(id) => seq![ArgModel::BigInt(id.0 as int)],
            AssetLookup::MarketSymbol { market, symbol } => seq![ArgModel::Text(market@), ArgModel::Text(symbol@)],
        },
        bound(catalog_model(asset_id, lang)) == seq![
            ArgModel::Text(lang_code(lang)),
            ArgModel::Text(lang_code(lang)),
            ArgModel::BigInt(asset_id.0 as int),
        ],
        bound(price_history_model(asset_id, from, to, limit)) == seq![
            ArgModel::BigInt(asset_id.0 as int),
            ArgModel::Date(from),
            ArgModel::Date(to),
            ArgModel::BigInt(limit as int),
        ],
        bound(fx_history_model(currency, from, to, limit)) == seq![
            ArgModel::Text(fx_code(currency)),
            ArgModel::Date(from),
            ArgModel::Date(to),
            ArgModel::BigInt(limit as int),
        ],
        bound(key_lookup_model(hash)) == seq![ArgModel::Text(hash)],
        bound(key_usage_model(key_id)) == seq![ArgModel::BigInt(key_id as int)],
{
    let d = sql(""@);
    let r = resolve_model(lookup);
    match lookup {
        AssetLookup::Id(id) => lemma_bound_small(r[0], r[1], d, d, d),
        AssetLookup::MarketSymbol { market, symbol } => lemma_bound_small(r[0], r[1], r[2], r[3], d),
    }
    let c = catalog_model(asset_id, lang);
    lemma_bound_add(c.take(5), c.skip(5));
    assert(c.take(5) + c.skip(5) =~= c);
    lemma_bound_small(c[0], c[1], c[2], c[3], c[4]);
    assert(c.take(5) =~= seq![c[0], c[1], c[2], c[3], c[4]]);
    lemma_bound_small(c[5], d, d, d, d);
    assert(c.skip(5) =~= seq![c[5]]);
    let p = price_history_model(asset_id, from, to, limit);
    lemma_bound_add(p.take(4), p.skip(4));
    assert(p.take(4) + p.skip(4) =~= p);
    lemma_bound_small(p[0], p[1], p[2], p[3], d);
    lemma_bound_small(p[4], p[5], p[6], p[7], d);
    assert(p.take(4) =~= seq![p[0], p[1], p[2], p[3]]);
    assert(p.skip(4) =~= seq![p[4], p[5], p[6], p[7]]);
    let x = fx_history_model(currency, from, to, limit);
    lemma_bound_add(x.take(4), x.skip(4));
    assert(x.take(4) + x.skip(4) =~= x);
    lemma_bound_small(x[0], x[1], x[2], x[3], d);
    lemma_bound_small(x[4], x[5], x[6], x[7], d);
    assert(x.take(4) =~= seq![x[0], x[1], x[2], x[3]]);
    assert(x.skip(4) =~= seq![x[4], x[5], x[6], x[7]]);
    let k = key_lookup_model(hash);
    lemma_bound_small(k[0], k[1], k[2], d, d);
    let u = key_usage_model(key_id);
    lemma_bound_small(u[0], u[1], d, d, d);
    assert(bound(Seq::<PieceModel>::empty()) =~= Seq::<ArgModel>::empty());
}

} // verus!
