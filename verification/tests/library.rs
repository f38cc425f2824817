use cryptoally_api::domain::dates::{epoch_date, parse_date_or, Date};
use cryptoally_api::domain::digest::{sha256_hex, to_hex_lower};
use cryptoally_api::domain::models::{AssetFilter, AssetLookup, AssetQuery};
use cryptoally_api::domain::types::{ApiKeyHash, AssetId, FxCurrency, Lang, Pagination};
use cryptoally_api::http::error::ApiError;
use cryptoally_api::http::handlers::assets::{asset_query, AssetsParams};
use cryptoally_api::http::handlers::catalog::{catalog_request, CatalogParams};
use cryptoally_api::http::handlers::fx::{fx_request, FxParams};
use cryptoally_api::http::handlers::health::health_report;
use cryptoally_api::http::handlers::prices::{lookup_from_params, prices_request, PricesParams};
use cryptoally_api::infrastructure::sql::{
    asset_list_statement, catalog_statement, contains_pattern_of, fx_history_statement, key_check,
    key_lookup_statement, price_history_statement, resolve_statement, resolved_asset, SqlArg, SqlPiece, Statement,
};
use cryptoally_api::site::html::{escape, markets_rows, stablecoin_rows, stock_rows, MarketRow, StablecoinRow, StockRow};
use cryptoally_api::site::pages::{index_page, robots, sitemap};
use cryptoally_api::text::{chars_of, decimal_text, replace_str, str_eq, string_from_chars};

/// The statement as SQL text with `$n` placeholders, and its bound values.
fn render(st: &Statement) -> (String, Vec<String>) {
    let mut sql = String::new();
    let mut binds = Vec::new();
    for p in &st.pieces {
        match p {
            SqlPiece::Sql(t) => sql.push_str(t),
            SqlPiece::Bind(arg) => {
                binds.push(match arg {
                    SqlArg::Text(t) => t.clone(),
                    SqlArg::BigInt(v) => v.to_string(),
                    SqlArg::Date(d) => format!("{:04}-{:02}-{:02}", d.year, d.month, d.day),
                });
                sql.push_str(&format!("${}", binds.len()));
            }
        }
    }
    (sql, binds)
}

fn query(asset_type: Option<&str>, market: Option<&str>, search: Option<&str>, lang: Lang) -> AssetQuery {
    AssetQuery {
        filter: AssetFilter {
            asset_type: asset_type.map(String::from),
            market: market.map(String::from),
            search: search.map(String::from),
        },
        lang,
        pagination: Pagination { limit: 50, offset: 0 },
    }
}

#[test]
fn asset_list_statement_without_filters() {
    let (sql, binds) = render(&asset_list_statement(&query(None, None, None, Lang::En)));
    assert_eq!(
        sql,
        "SELECT a.id, a.symbol, a.name, a.asset_type::text AS asset_type, a.currency, m.slug AS market, \
         COALESCE(m.name ->> $1, m.name ->> 'en') AS market_name, a.index_name FROM assets a JOIN markets m \
         ON m.id = a.market_id WHERE a.is_active ORDER BY a.symbol LIMIT $2 OFFSET $3"
    );
    assert_eq!(binds, vec!["en", "50", "0"]);
}

#[test]
fn asset_list_statement_binds_every_filter() {
    let (sql, binds) = render(&asset_list_statement(&query(Some("crypto"), Some("japan"), Some("app'le"), Lang::Ja)));
    assert!(sql.contains(" AND a.asset_type = $2::asset_type AND m.slug = $3 AND (a.symbol ILIKE $4 OR a.name ILIKE $5)"));
    assert!(!sql.contains("app'le"));
    assert_eq!(binds, vec!["ja", "crypto", "japan", "%app'le%", "%app'le%", "50", "0"]);
}

#[test]
fn asset_list_text_is_the_same_for_any_values() {
    let a = render(&asset_list_statement(&query(Some("x"), None, Some("y"), Lang::Es))).0;
    let b = render(&asset_list_statement(&query(Some("'; DROP TABLE assets; --"), None, Some("%"), Lang::Zh))).0;
    assert_eq!(a, b);
}

#[test]
fn other_statements_render_as_expected() {
    let (sql, binds) = render(&resolve_statement(&AssetLookup::Id(AssetId(7))));
    assert_eq!(sql, "SELECT id FROM assets WHERE id = $1");
    assert_eq!(binds, vec!["7"]);
    let lookup = AssetLookup::MarketSymbol { market: "crypto".into(), symbol: "bitcoin".into() };
    let (sql, binds) = render(&resolve_statement(&lookup));
    assert_eq!(
        sql,
        "SELECT a.id FROM assets a JOIN markets m ON m.id = a.market_id WHERE m.slug = $1 AND a.external_id = $2"
    );
    assert_eq!(binds, vec!["crypto", "bitcoin"]);
    let (sql, binds) = render(&catalog_statement(AssetId(2), Lang::Pt));
    assert!(sql.starts_with("SELECT asset_id, founders, COALESCE(founded ->> $1, founded ->> 'en') AS founded"));
    assert!(sql.ends_with("FROM asset_catalog WHERE asset_id = $3"));
    assert_eq!(binds, vec!["pt", "pt", "2"]);
    let d1 = Date { year: 2024, month: 1, day: 1 };
    let d2 = Date { year: 2024, month: 12, day: 31 };
    let (sql, binds) = render(&price_history_statement(AssetId(1), d1, d2, 2000));
    assert_eq!(
        sql,
        "SELECT date, open, high, low, close, volume FROM daily_prices WHERE asset_id = $1 AND date BETWEEN $2 AND $3 ORDER BY date ASC LIMIT $4"
    );
    assert_eq!(binds, vec!["1", "2024-01-01", "2024-12-31", "2000"]);
    let (sql, binds) = render(&fx_history_statement(FxCurrency::Brl, d1, d2, 10));
    assert_eq!(
        sql,
        "SELECT date, open, high, low, close FROM fx_rates WHERE currency = $1 AND date BETWEEN $2 AND $3 ORDER BY date ASC LIMIT $4"
    );
    assert_eq!(binds, vec!["BRL", "2024-01-01", "2024-12-31", "10"]);
    let (sql, binds) = render(&key_lookup_statement(&ApiKeyHash("abc".into())));
    assert_eq!(sql, "SELECT id FROM api_keys WHERE key_hash = $1 AND is_active AND revoked_at IS NULL");
    assert_eq!(binds, vec!["abc"]);
}

#[test]
fn key_check_records_usage_of_found_keys_only() {
    let found = key_check(Some(42));
    assert!(found.accepted);
    let (sql, binds) = render(found.record_usage.as_ref().unwrap());
    assert_eq!(sql, "UPDATE api_keys SET last_used_at = now() WHERE id = $1");
    assert_eq!(binds, vec!["42"]);
    let missing = key_check(None);
    assert!(!missing.accepted);
    assert!(missing.record_usage.is_none());
    assert_eq!(resolved_asset(Some(3)), Some(AssetId(3)));
    assert_eq!(resolved_asset(None), None);
}

#[test]
fn contains_pattern_wraps_the_term() {
    assert_eq!(contains_pattern_of("apple"), "%apple%");
    assert_eq!(contains_pattern_of(""), "%%");
}

#[test]
fn escape_replaces_html_specials() {
    assert_eq!(escape("<a href=\"x\">Q&A</a>"), "&lt;a href=\"x\"&gt;Q&amp;A&lt;/a&gt;");
    assert_eq!(escape("&lt;"), "&amp;lt;");
    assert_eq!(escape("plain text"), "plain text");
    assert_eq!(escape(""), "");
    let e = escape("<<>>&&");
    assert!(!e.contains('<') && !e.contains('>'));
}

#[test]
fn decimal_text_matches_format() {
    for n in [0i64, 7, 10, 42, -1, -42, 1_000_000, i64::MAX, i64::MIN] {
        assert_eq!(decimal_text(n), format!("{}", n));
    }
}

#[test]
fn replace_str_matches_std_replace() {
    let cases = [
        ("aaa", "aa", "b"),
        ("abcabc", "bc", ""),
        ("{{X}}{{X}}", "{{X}}", "yy"),
        ("no match here", "zz", "!"),
        ("ab", "abc", "x"),
        ("héllo wörld", "ö", "o"),
    ];
    for (s, p, r) in cases {
        assert_eq!(replace_str(s, p, r), s.replace(p, r));
    }
    assert_eq!(string_from_chars(&chars_of("héllo")), "héllo");
}

#[test]
fn markets_rows_render_escaped_cells() {
    let rows = vec![MarketRow {
        slug: "japan".into(),
        name: "Tokyo <SE>".into(),
        exchange: None,
        currency: "JPY".into(),
        country_code: Some("JP".into()),
        asset_count: 1234,
    }];
    assert_eq!(
        markets_rows(&Some(rows)),
        "<tr><td><strong>Tokyo &lt;SE&gt;</strong></td><td>\u{2014}</td><td>JPY</td><td>JP</td><td>1234</td></tr>"
    );
    assert_eq!(markets_rows(&Some(vec![])), "<tr><td colspan=\"5\" class=\"empty-note\">No markets found.</td></tr>");
    assert_eq!(
        markets_rows(&None),
        "<tr><td colspan=\"5\" class=\"empty-note\">Unable to load live data right now.</td></tr>"
    );
}

#[test]
fn stock_and_stablecoin_rows() {
    let stocks = vec![
        StockRow { symbol: "AAPL".into(), name: "Apple & Co".into(), asset_type: "stock".into() },
        StockRow { symbol: "SPY".into(), name: "S&P 500".into(), asset_type: "etf".into() },
    ];
    assert_eq!(
        stock_rows(&Some(stocks)),
        "<tr><td class=\"symbol\">AAPL</td><td>Apple &amp; Co</td><td><span class=\"type-tag type-stock\">stock</span></td></tr>\
         <tr><td class=\"symbol\">SPY</td><td>S&amp;P 500</td><td><span class=\"type-tag type-etf\">etf</span></td></tr>"
    );
    assert_eq!(stock_rows(&Some(vec![])), "<tr><td colspan=\"3\" class=\"empty-note\">No stocks found.</td></tr>");
    let coins = vec![StablecoinRow { symbol: "USDT".into(), name: "Tether".into() }];
    assert_eq!(stablecoin_rows(&Some(coins)), "<tr><td class=\"symbol\">USDT</td><td>Tether</td></tr>");
    assert_eq!(
        stablecoin_rows(&None),
        "<tr><td colspan=\"2\" class=\"empty-note\">Unable to load live data right now.</td></tr>"
    );
}

#[test]
fn index_page_fills_the_three_tables() {
    let template = "<table>{{MARKETS_ROWS}}</table><table>{{STOCK_ROWS}}</table><table>{{STABLECOIN_ROWS}}</table>";
    let coins = vec![StablecoinRow { symbol: "USDC".into(), name: "USD Coin".into() }];
    let page = index_page(template, &None, &Some(vec![]), &Some(coins));
    assert_eq!(page.status, 200);
    assert_eq!(page.content_type, "text/html; charset=utf-8");
    assert_eq!(page.cache_control, "no-cache");
    assert_eq!(
        page.body,
        "<table><tr><td colspan=\"5\" class=\"empty-note\">Unable to load live data right now.</td></tr></table>\
         <table><tr><td colspan=\"3\" class=\"empty-note\">No stocks found.</td></tr></table>\
         <table><tr><td class=\"symbol\">USDC</td><td>USD Coin</td></tr></table>"
    );
}

#[test]
fn robots_and_sitemap_pages() {
    let r = robots();
    assert_eq!(r.status, 200);
    assert_eq!(r.content_type, "text/plain; charset=utf-8");
    assert_eq!(r.cache_control, "public, max-age=86400");
    assert_eq!(r.body, "User-agent: *\nAllow: /\n\nSitemap: https://www.cryptoally.dev/sitemap.xml\n");
    let s = sitemap();
    assert_eq!(s.content_type, "application/xml; charset=utf-8");
    assert!(s.body.starts_with("<?xml version=\"1.0\" encoding=\"UTF-8\"?>\n"));
    assert!(s.body.contains("<loc>https://www.cryptoally.dev/</loc>"));
    assert_eq!(s.body.matches("<url>").count(), 1);
}

#[test]
fn dates_parse_or_fall_back() {
    let fallback = Date { year: 2000, month: 2, day: 29 };
    assert_eq!(parse_date_or(Some("2024-01-15"), fallback), Date { year: 2024, month: 1, day: 15 });
    assert_eq!(parse_date_or(Some("2024-13-01"), fallback), fallback);
    assert_eq!(parse_date_or(Some("yesterday"), fallback), fallback);
    assert_eq!(parse_date_or(None, fallback), fallback);
    assert_eq!(epoch_date(), Date { year: 1970, month: 1, day: 1 });
}

#[test]
fn hex_rendering() {
    assert_eq!(to_hex_lower(&[0x00, 0x0f, 0xa5, 0xff]), "000fa5ff");
    assert_eq!(to_hex_lower(&[]), "");
    assert_eq!(sha256_hex("abc"), "ba7816bf8f01cfea414140de5dae2223b00361a396177a9cb410ff61f20015ad");
}

#[test]
fn api_errors_map_to_status_and_message() {
    assert_eq!(ApiError::Unauthorized.status(), 401);
    assert_eq!(ApiError::Unauthorized.message(), "missing or invalid API key (x-api-key header)");
    assert_eq!(ApiError::BadRequest("bad".into()).status(), 400);
    assert_eq!(ApiError::BadRequest("bad".into()).message(), "bad");
    assert_eq!(ApiError::NotFound("gone".into()).status(), 404);
    assert_eq!(ApiError::Internal.status(), 500);
    assert_eq!(ApiError::Internal.message(), "internal error");
    let e: ApiError = sqlx::Error::RowNotFound.into();
    assert!(matches!(e, ApiError::Internal));
}

#[test]
fn health_report_replies() {
    let up = health_report(true);
    assert_eq!((up.status, up.status_text, up.database_text), (200, "ok", "ok"));
    assert_eq!(up.cache_control, Some("public, max-age=60, stale-while-revalidate=300"));
    let down = health_report(false);
    assert_eq!((down.status, down.status_text, down.database_text), (503, "error", "query failed"));
    assert_eq!(down.cache_control, None);
}

#[test]
fn request_parameters_become_requests() {
    let q = asset_query(&AssetsParams {
        asset_type: Some("crypto".into()),
        market: None,
        search: Some("bit".into()),
        limit: Some(1000),
        offset: Some(-3),
        lang: Some("zh".into()),
    });
    assert_eq!(q.filter.asset_type.as_deref(), Some("crypto"));
    assert_eq!(q.filter.search.as_deref(), Some("bit"));
    assert_eq!(q.lang, Lang::Zh);
    assert_eq!((q.pagination.limit, q.pagination.offset), (500, 0));

    let p = PricesParams {
        asset_id: None,
        market: Some("crypto".into()),
        symbol: None,
        from: None,
        to: None,
        limit: None,
    };
    match lookup_from_params(&p) {
        Err(ApiError::BadRequest(m)) => assert_eq!(m, "provide either asset_id, or both market and symbol"),
        other => panic!("unexpected {other:?}"),
    }
    let today = Date { year: 2024, month: 5, day: 6 };
    let p = PricesParams { asset_id: Some(5), market: None, symbol: None, from: None, to: None, limit: Some(0) };
    let r = prices_request(&p, today).unwrap();
    assert!(matches!(r.lookup, AssetLookup::Id(AssetId(5))));
    assert_eq!((r.from, r.to, r.limit), (Date { year: 1970, month: 1, day: 1 }, today, 1));

    let c = catalog_request(&CatalogParams {
        asset_id: None,
        market: Some("us".into()),
        symbol: Some("AAPL".into()),
        lang: Some("fr".into()),
    })
    .unwrap();
    assert_eq!(c.lang, Lang::En);
    match c.lookup {
        AssetLookup::MarketSymbol { market, symbol } => assert_eq!((market.as_str(), symbol.as_str()), ("us", "AAPL")),
        other => panic!("unexpected {other:?}"),
    }

    let f = fx_request(
        &FxParams { currency: Some("EUR".into()), from: Some("2024-01-01".into()), to: None, limit: None },
        today,
    )
    .unwrap();
    assert_eq!(f.currency, FxCurrency::Eur);
    assert_eq!((f.from, f.to, f.limit), (Date { year: 2024, month: 1, day: 1 }, today, 2000));
}

#[test]
fn escape_round_trips_and_grows_by_entity_length() {
    for s in ["", "plain", "<b>&amp;</b>", "a&&b<<c>>", "&lt;&gt;", "x > y & y < z"] {
        let e = escape(s);
        let back = e.replace("&lt;", "<").replace("&gt;", ">").replace("&amp;", "&");
        assert_eq!(back, s);
        let count = |c: char| s.chars().filter(|&x| x == c).count();
        assert_eq!(e.chars().count(), s.chars().count() + 4 * count('&') + 3 * count('<') + 3 * count('>'));
    }
}

#[test]
fn str_comparison_is_exact() {
    assert!(str_eq("es", "es"));
    assert!(!str_eq("es", "ES"));
    assert!(!str_eq("es", "e"));
    assert!(str_eq("", ""));
}
