//! Requests driven through the library's `Exchange` against in-memory fakes of the
//! repositories: the auth check, status codes and which rows are served get
//! exercised without a database.

use std::collections::HashMap;

use cryptoally_api::domain::dates::Date;
use cryptoally_api::domain::models::{AssetLookup, AssetQuery};
use cryptoally_api::domain::types::{ApiKeyHash, ApiKeyPlaintext, AssetId};
use cryptoally_api::http::exchange::{Action, Endpoint, Event, Exchange, Reply};
use cryptoally_api::http::handlers::assets::AssetsParams;
use cryptoally_api::http::handlers::catalog::CatalogParams;
use cryptoally_api::http::handlers::fx::FxParams;
use cryptoally_api::http::handlers::prices::PricesParams;

const TEST_KEY: &str = "test-key-plaintext";

struct FakeAsset {
    id: i64,
    symbol: &'static str,
    market: &'static str,
    asset_type: &'static str,
}

struct Fakes {
    assets: Vec<FakeAsset>,
    bars: HashMap<i64, usize>,
    catalog: HashMap<i64, &'static str>,
    valid_hash: ApiKeyHash,
    database_up: bool,
}

/// What the request was answered with.
#[derive(Debug)]
struct Answer {
    status: u16,
    /// Symbols of listed assets, or one entry per bar / rate, or the catalog history.
    rows: Vec<String>,
    /// Every database call made, in order.
    calls: Vec<&'static str>,
    message: Option<String>,
}

fn fakes() -> Fakes {
    let mut bars = HashMap::new();
    bars.insert(2, 1);
    let mut catalog = HashMap::new();
    catalog.insert(2, "The first cryptocurrency.");
    Fakes {
        assets: vec![
            FakeAsset { id: 1, symbol: "AAPL", market: "us", asset_type: "stock" },
            FakeAsset { id: 2, symbol: "bitcoin", market: "crypto", asset_type: "crypto" },
        ],
        bars,
        catalog,
        valid_hash: ApiKeyPlaintext(TEST_KEY.to_string()).hash(),
        database_up: false,
    }
}

fn list(f: &Fakes, q: &AssetQuery) -> Vec<String> {
    f.assets
        .iter()
        .filter(|a| q.filter.market.as_deref().map_or(true, |m| a.market == m))
        .filter(|a| q.filter.asset_type.as_deref().map_or(true, |t| a.asset_type == t))
        .map(|a| a.symbol.to_string())
        .collect()
}

fn resolve(f: &Fakes, lookup: &AssetLookup) -> Option<AssetId> {
    match lookup {
        AssetLookup::Id(id) => f.assets.iter().find(|a| a.id == id.0).map(|a| AssetId(a.id)),
        AssetLookup::MarketSymbol { market, symbol } => f
            .assets
            .iter()
            .find(|a| a.market == market && a.symbol == symbol)
            .map(|a| AssetId(a.id)),
    }
}

fn drive(f: &Fakes, endpoint: Endpoint, key: Option<&str>) -> Answer {
    let today = Date { year: 2024, month: 6, day: 30 };
    let mut exchange = Exchange::new(endpoint, key.map(|k| k.to_string()), today);
    let mut event = Event::Arrived;
    let mut rows: Vec<String> = Vec::new();
    let mut calls = Vec::new();
    loop {
        assert!(exchange.accepts(&event));
        let (next, action) = exchange.step(event);
        exchange = next;
        event = match action {
            Action::CheckApiKey(hash) => {
                calls.push("check_key");
                Event::ApiKeyChecked(Ok(hash == f.valid_hash))
            }
            Action::PingDatabase => {
                calls.push("ping");
                Event::DatabasePinged(if f.database_up { Ok(()) } else { Err(sqlx::Error::PoolTimedOut) })
            }
            Action::ListAssets(q) => {
                calls.push("list");
                rows = list(f, &q);
                Event::AssetsListed(Ok(()))
            }
            Action::ResolveAsset(lookup) => {
                calls.push("resolve");
                Event::AssetResolved(Ok(resolve(f, &lookup)))
            }
            Action::FetchPrices { asset_id, limit, .. } => {
                calls.push("prices");
                let n = f.bars.get(&asset_id.0).copied().unwrap_or(0).min(limit as usize);
                rows = (0..n).map(|i| format!("bar{i}")).collect();
                Event::PricesFetched(Ok(()))
            }
            Action::FetchCatalog { asset_id, .. } => {
                calls.push("catalog");
                match f.catalog.get(&asset_id.0) {
                    Some(h) => {
                        rows = vec![h.to_string()];
                        Event::CatalogFetched(Ok(true))
                    }
                    None => Event::CatalogFetched(Ok(false)),
                }
            }
            Action::FetchFx { .. } => {
                calls.push("fx");
                rows = vec!["rate".to_string()];
                Event::FxFetched(Ok(()))
            }
            Action::Respond(reply) => {
                assert!(exchange.is_answered());
                return match reply {
                    Reply::Rows => Answer { status: 200, rows, calls, message: None },
                    Reply::HealthUp => Answer { status: 200, rows: vec![], calls, message: None },
                    Reply::HealthDown => Answer { status: 503, rows: vec![], calls, message: None },
                    Reply::QueryRejected => Answer { status: 400, rows: vec![], calls, message: None },
                    Reply::Failure(e) => Answer { status: e.status(), rows: vec![], calls, message: Some(e.message()) },
                };
            }
        };
    }
}

fn assets(market: Option<&str>) -> Endpoint {
    Endpoint::Assets(AssetsParams {
        asset_type: None,
        market: market.map(|m| m.to_string()),
        search: None,
        limit: None,
        offset: None,
        lang: None,
    })
}

fn prices(asset_id: Option<i64>, market: Option<&str>, symbol: Option<&str>) -> Endpoint {
    Endpoint::Prices(PricesParams {
        asset_id,
        market: market.map(|m| m.to_string()),
        symbol: symbol.map(|s| s.to_string()),
        from: None,
        to: None,
        limit: None,
    })
}

fn catalog(asset_id: Option<i64>) -> Endpoint {
    Endpoint::Catalog(CatalogParams { asset_id, market: None, symbol: None, lang: None })
}

#[test]
fn assets_without_api_key_is_unauthorized() {
    let res = drive(&fakes(), assets(None), None);
    assert_eq!(res.status, 401);
    assert!(res.calls.is_empty());
}

#[test]
fn assets_with_wrong_api_key_is_unauthorized() {
    let res = drive(&fakes(), assets(None), Some("not-the-right-key"));
    assert_eq!(res.status, 401);
    assert_eq!(res.calls, vec!["check_key"]);
}

#[test]
fn assets_with_valid_key_lists_assets() {
    let res = drive(&fakes(), assets(None), Some(TEST_KEY));
    assert_eq!(res.status, 200);
    assert_eq!(res.rows.len(), 2);
}

#[test]
fn assets_filters_by_market() {
    let res = drive(&fakes(), assets(Some("crypto")), Some(TEST_KEY));
    assert_eq!(res.status, 200);
    assert_eq!(res.rows.len(), 1);
    assert_eq!(res.rows[0], "bitcoin");
}

#[test]
fn prices_without_lookup_params_is_bad_request() {
    let res = drive(&fakes(), prices(None, None, None), Some(TEST_KEY));
    assert_eq!(res.status, 400);
    assert_eq!(res.message.as_deref(), Some("provide either asset_id, or both market and symbol"));
    assert_eq!(res.calls, vec!["check_key"]);
}

#[test]
fn prices_for_nonexistent_asset_is_not_found() {
    let res = drive(&fakes(), prices(Some(999), None, None), Some(TEST_KEY));
    assert_eq!(res.status, 404);
    assert_eq!(res.message.as_deref(), Some("no such asset"));
}

#[test]
fn prices_by_market_and_symbol_returns_bars() {
    let res = drive(&fakes(), prices(None, Some("crypto"), Some("bitcoin")), Some(TEST_KEY));
    assert_eq!(res.status, 200);
    assert_eq!(res.rows.len(), 1);
}

#[test]
fn catalog_returns_translated_fields() {
    let res = drive(&fakes(), catalog(Some(2)), Some(TEST_KEY));
    assert_eq!(res.status, 200);
    assert_eq!(res.rows[0], "The first cryptocurrency.");
}

#[test]
fn catalog_for_asset_with_no_entry_is_not_found() {
    let res = drive(&fakes(), catalog(Some(1)), Some(TEST_KEY));
    assert_eq!(res.status, 404);
    assert_eq!(res.message.as_deref(), Some("no catalog entry for this asset"));
}

#[test]
fn catalog_for_nonexistent_asset_id_is_not_found() {
    let res = drive(&fakes(), catalog(Some(999)), Some(TEST_KEY));
    assert_eq!(res.status, 404);
    assert_eq!(res.calls, vec!["check_key", "resolve"]);
}

#[test]
fn health_is_public_no_api_key_needed() {
    let res = drive(&fakes(), Endpoint::Health, None);
    assert_ne!(res.status, 401);
    assert_eq!(res.status, 503);
    let mut up = fakes();
    up.database_up = true;
    let res = drive(&up, Endpoint::Health, None);
    assert_eq!(res.status, 200);
    assert_eq!(res.calls, vec!["ping"]);
}

#[test]
fn prices_for_existing_asset_without_bars_is_ok_and_empty() {
    let res = drive(&fakes(), prices(Some(1), None, None), Some(TEST_KEY));
    assert_eq!(res.status, 200);
    assert!(res.rows.is_empty());
}

#[test]
fn asset_id_takes_precedence_over_market_and_symbol() {
    let res = drive(&fakes(), prices(Some(999), Some("crypto"), Some("bitcoin")), Some(TEST_KEY));
    assert_eq!(res.status, 404);
}

#[test]
fn fx_rejects_unsupported_currency_after_auth() {
    let bad = Endpoint::Fx(FxParams { currency: Some("USD".to_string()), from: None, to: None, limit: None });
    let res = drive(&fakes(), bad, Some(TEST_KEY));
    assert_eq!(res.status, 400);
    assert_eq!(res.message.as_deref(), Some("currency must be one of: BRL, CNY, JPY, EUR, KRW"));
    let missing = Endpoint::Fx(FxParams { currency: None, from: None, to: None, limit: None });
    assert_eq!(drive(&fakes(), missing, None).status, 401);
    let good = Endpoint::Fx(FxParams { currency: Some("JPY".to_string()), from: None, to: None, limit: None });
    let res = drive(&fakes(), good, Some(TEST_KEY));
    assert_eq!(res.status, 200);
    assert_eq!(res.calls, vec!["check_key", "fx"]);
}

#[test]
fn unreadable_query_is_rejected_only_after_the_key_check() {
    assert_eq!(drive(&fakes(), Endpoint::Unreadable, None).status, 401);
    let res = drive(&fakes(), Endpoint::Unreadable, Some(TEST_KEY));
    assert_eq!(res.status, 400);
    assert_eq!(res.calls, vec!["check_key"]);
}

#[test]
fn database_errors_are_internal_and_not_echoed() {
    let f = fakes();
    let mut exchange = Exchange::new(assets(None), Some(TEST_KEY.to_string()), Date { year: 2024, month: 1, day: 1 });
    for event in [Event::Arrived, Event::ApiKeyChecked(Ok(true))] {
        let (next, _) = exchange.step(event);
        exchange = next;
    }
    let (_, action) = exchange.step(Event::AssetsListed(Err(sqlx::Error::RowNotFound)));
    match action {
        Action::Respond(Reply::Failure(e)) => {
            assert_eq!(e.status(), 500);
            assert_eq!(e.message(), "internal error");
        }
        other => panic!("unexpected {other:?}"),
    }
    let _ = f;
}

#[test]
fn key_store_failure_is_internal_error() {
    let exchange = Exchange::new(assets(None), Some(TEST_KEY.to_string()), Date { year: 2024, month: 1, day: 1 });
    let (exchange, action) = exchange.step(Event::Arrived);
    assert!(matches!(action, Action::CheckApiKey(_)));
    let (_, action) = exchange.step(Event::ApiKeyChecked(Err(sqlx::Error::PoolTimedOut)));
    match action {
        Action::Respond(Reply::Failure(e)) => {
            assert_eq!(e.status(), 500);
            assert_eq!(e.message(), "internal error");
        }
        other => panic!("unexpected {other:?}"),
    }
}

#[test]
fn prices_window_defaults_and_limit_clamp() {
    let f = fakes();
    let endpoint = Endpoint::Prices(PricesParams {
        asset_id: Some(2),
        market: None,
        symbol: None,
        from: Some("2024-02-30".to_string()),
        to: Some("2024-03-31".to_string()),
        limit: Some(50_000),
    });
    let today = Date { year: 2025, month: 7, day: 4 };
    let mut exchange = Exchange::new(endpoint, Some(TEST_KEY.to_string()), today);
    let mut event = Event::Arrived;
    loop {
        let (next, action) = exchange.step(event);
        exchange = next;
        event = match action {
            Action::CheckApiKey(hash) => Event::ApiKeyChecked(Ok(hash == f.valid_hash)),
            Action::ResolveAsset(lookup) => Event::AssetResolved(Ok(resolve(&f, &lookup))),
            Action::FetchPrices { asset_id, from, to, limit } => {
                assert_eq!(asset_id, AssetId(2));
                // an impossible date is ignored: the window starts at 1970-01-01
                assert_eq!(from, Date { year: 1970, month: 1, day: 1 });
                assert_eq!(to, Date { year: 2024, month: 3, day: 31 });
                assert_eq!(limit, 10_000);
                return;
            }
            other => panic!("unexpected {other:?}"),
        };
    }
}

#[test]
fn arriving_requests_end_their_window_today() {
    let endpoint = Endpoint::Prices(PricesParams {
        asset_id: Some(2),
        market: None,
        symbol: None,
        from: Some("2024-01-01".to_string()),
        to: None,
        limit: None,
    });
    let exchange = Exchange::arrive(endpoint, Some(TEST_KEY.to_string()));
    let (exchange, _) = exchange.step(Event::Arrived);
    let (exchange, _) = exchange.step(Event::ApiKeyChecked(Ok(true)));
    let (_, action) = exchange.step(Event::AssetResolved(Ok(Some(AssetId(2)))));
    match action {
        Action::FetchPrices { from, to, limit, .. } => {
            assert_eq!(from, Date { year: 2024, month: 1, day: 1 });
            assert!(to.year >= 2025 && (1..=12).contains(&to.month) && (1..=31).contains(&to.day));
            assert_eq!(limit, 2000);
        }
        other => panic!("unexpected {other:?}"),
    }
}
