//! The decisions one API request goes through, as a state machine.
//!
//! An [`Exchange`] is created when a request arrives. The caller feeds it events
//! (the request arriving, and the outcome of each database call it asked for) and
//! carries out the action each step returns, until the action is a reply. The
//! database calls themselves, and the rows they return, stay with the caller.
//!
//! Every route but `/api/health` needs an API key: the key's hash is checked first,
//! and no asset, price, catalog or FX data is asked for until the check accepted it.

use vstd::prelude::*;

use crate::domain::dates::{chrono_parsed_date, date_in_range, epoch, epoch_date, is_iso_date, iso_format, today_utc, Date};
use crate::domain::digest::key_hash_hex;
use crate::domain::models::{AssetLookup, AssetQuery};
use crate::domain::types::{fx_from, ApiKeyHash, ApiKeyPlaintext, AssetId, FxCurrency, Lang};
use crate::http::error::ApiError;
use crate::http::handlers::assets::{asset_query, asset_query_spec, AssetsParams};
use crate::http::handlers::catalog::{catalog_plan, catalog_request, CatalogParams, CatalogRequest};
use crate::http::handlers::fx::{bad_currency_message, fx_plan, fx_request, FxParams};
use crate::http::handlers::{lookup_for, missing_lookup_message};
use crate::http::handlers::prices::{prices_plan, prices_request, PricesParams, PricesRequest};

verus! {

/// The route a request was made to, with its query parameters.
#[derive(Debug, Clone)]
pub enum Endpoint {
    Health,
    Assets(AssetsParams),
    Prices(PricesParams),
    Catalog(CatalogParams),
    Fx(FxParams),
    /// A protected route whose query string could not be read into its parameters.
    Unreadable,
}

/// Where an exchange stands: the call it waits on, or answered.
#[derive(Debug, Clone, Copy, PartialEq, Eq, Structural)]
pub enum Stage {
    Received,
    CheckingKey,
    PingingDatabase,
    ListingAssets,
    ResolvingAsset,
    FetchingPrices,
    FetchingCatalog,
    FetchingFx,
    Answered,
}

/// How a request is answered.
#[derive(Debug)]
pub enum Reply {
    /// 200, with the rows (or the catalog entry) the last database call returned, as JSON.
    Rows,
    /// The liveness probe's reply when its query succeeded.
    HealthUp,
    /// The liveness probe's reply when its query failed.
    HealthDown,
    /// The error's status, with `{"error": message}`.
    Failure(ApiError),
    /// 400, with the reason the query string could not be read.
    QueryRejected,
}

/// What the caller is to do next.
#[derive(Debug)]
pub enum Action {
    /// Ask the key store whether this hash belongs to an active, non-revoked key.
    CheckApiKey(ApiKeyHash),
    /// Run a trivial query to see that the database answers.
    PingDatabase,
    /// List the assets this query selects.
    ListAssets(AssetQuery),
    /// Find the id of the asset this lookup names, if it exists.
    ResolveAsset(AssetLookup),
    /// Fetch at most `limit` daily bars of the asset between the two dates.
    FetchPrices { asset_id: AssetId, from: Date, to: Date, limit: i64 },
    /// Fetch the asset's catalog entry in the language.
    FetchCatalog { asset_id: AssetId, lang: Lang },
    /// Fetch at most `limit` daily rates of the currency between the two dates.
    FetchFx { currency: FxCurrency, from: Date, to: Date, limit: i64 },
    /// Answer the request; the exchange is over.
    Respond(Reply),
}

/// What happened: the request arrived, or a database call came back.
#[derive(Debug)]
pub enum Event {
    Arrived,
    /// Whether the key store knows the hash as an active key.
    ApiKeyChecked(Result<bool, sqlx::Error>),
    DatabasePinged(Result<(), sqlx::Error>),
    AssetsListed(Result<(), sqlx::Error>),
    AssetResolved(Result<Option<AssetId>, sqlx::Error>),
    PricesFetched(Result<(), sqlx::Error>),
    /// Whether the asset has a catalog entry.
    CatalogFetched(Result<bool, sqlx::Error>),
    FxFetched(Result<(), sqlx::Error>),
}

/// One request on its way from arrival to reply.
pub struct Exchange {
    endpoint: Endpoint,
    api_key: Option<String>,
    today: Date,
    stage: Stage,
    authorized: bool,
    prices: Option<PricesRequest>,
    catalog: Option<CatalogRequest>,
}

/// The action asks for asset, price, catalog or FX data.
pub open spec fn reaches_data(a: Action) -> bool {
    ||| a is ListAssets
    ||| a is ResolveAsset
    ||| a is FetchPrices
    ||| a is FetchCatalog
    ||| a is FetchFx
}

pub open spec fn key_accepted(r: Result<bool, sqlx::Error>) -> bool {
    r matches Ok(true)
}

impl Exchange {
    pub closed spec fn endpoint(self) -> Endpoint {
        self.endpoint
    }

    pub closed spec fn api_key(self) -> Option<String> {
        self.api_key
    }

    pub closed spec fn today(self) -> Date {
        self.today
    }

    pub closed spec fn stage(self) -> Stage {
        self.stage
    }

    /// Whether the request's key has been accepted.
    pub closed spec fn authorized(self) -> bool {
        self.authorized
    }

    pub closed spec fn pending_prices(self) -> Option<PricesRequest> {
        self.prices
    }

    pub closed spec fn pending_catalog(self) -> Option<CatalogRequest> {
        self.catalog
    }

    #[verifier::type_invariant]
    closed spec fn well_formed(self) -> bool {
        &&& self.authorized ==> !(self.endpoint is Health) && self.api_key is Some
        &&& self.stage == Stage::CheckingKey ==> !(self.endpoint is Health) && self.api_key is Some
        &&& self.stage == Stage::PingingDatabase ==> self.endpoint is Health
        &&& self.stage == Stage::ListingAssets ==> self.authorized && self.endpoint is Assets
        &&& self.stage == Stage::ResolvingAsset ==> self.authorized && {
            ||| self.endpoint is Prices && self.prices is Some
            ||| self.endpoint is Catalog && self.catalog is Some
        }
        &&& self.stage == Stage::FetchingPrices ==> self.authorized && self.endpoint is Prices && self.prices is Some
        &&& self.stage == Stage::FetchingCatalog ==> self.authorized && self.endpoint is Catalog && self.catalog is Some
        &&& self.stage == Stage::FetchingFx ==> self.authorized && self.endpoint is Fx
    }
}

/// The event is the one the exchange waits for.
pub open spec fn expects(s: Exchange, e: Event) -> bool {
    match e {
        Event::Arrived => s.stage() == Stage::Received,
        Event::ApiKeyChecked(_) => s.stage() == Stage::CheckingKey,
        Event::DatabasePinged(_) => s.stage() == Stage::PingingDatabase,
        Event::AssetsListed(_) => s.stage() == Stage::ListingAssets,
        Event::AssetResolved(_) => s.stage() == Stage::ResolvingAsset,
        Event::PricesFetched(_) => s.stage() == Stage::FetchingPrices,
        Event::CatalogFetched(_) => s.stage() == Stage::FetchingCatalog,
        Event::FxFetched(_) => s.stage() == Stage::FetchingFx,
    }
}

/// The exchange ends with this failure.
pub open spec fn fails_with_internal(t: Exchange, a: Action) -> bool {
    t.stage() == Stage::Answered && a matches Action::Respond(Reply::Failure(ApiError::Internal))
}

pub open spec fn fails_unauthorized(t: Exchange, a: Action) -> bool {
    t.stage() == Stage::Answered && a matches Action::Respond(Reply::Failure(ApiError::Unauthorized))
}

pub open spec fn fails_bad_request(t: Exchange, a: Action, message: Seq<char>) -> bool {
    t.stage() == Stage::Answered && (a matches Action::Respond(Reply::Failure(ApiError::BadRequest(m))) && m@ == message)
}

pub open spec fn fails_not_found(t: Exchange, a: Action, message: Seq<char>) -> bool {
    t.stage() == Stage::Answered && (a matches Action::Respond(Reply::Failure(ApiError::NotFound(m))) && m@ == message)
}

pub open spec fn answers_rows(t: Exchange, a: Action) -> bool {
    t.stage() == Stage::Answered && a matches Action::Respond(Reply::Rows)
}

pub open spec fn no_such_asset() -> Seq<char> {
    "no such asset"@
}

pub open spec fn no_catalog_entry() -> Seq<char> {
    "no catalog entry for this asset"@
}

/// The first step of a route once its key was accepted: the assets listing asks for
/// its query; prices and catalog resolve the targeted asset (400 without one); FX
/// fetches the named currency's rates (400 without a supported one); a query string
/// that could not be read is rejected.
pub open spec fn begins_protected(s: Exchange, t: Exchange, a: Action) -> bool {
    match s.endpoint() {
        Endpoint::Health => false,
        Endpoint::Unreadable => t.stage() == Stage::Answered && a matches Action::Respond(Reply::QueryRejected),
        Endpoint::Assets(p) => t.stage() == Stage::ListingAssets && a == Action::ListAssets(asset_query_spec(p)),
        Endpoint::Prices(p) => match prices_plan(p, s.today()) {
            Some(req) => t.stage() == Stage::ResolvingAsset && t.pending_prices() == Some(req) && a
                == Action::ResolveAsset(req.lookup),
            None => fails_bad_request(t, a, missing_lookup_message()),
        },
        Endpoint::Catalog(p) => match catalog_plan(p) {
            Some(req) => t.stage() == Stage::ResolvingAsset && t.pending_catalog() == Some(req) && a
                == Action::ResolveAsset(req.lookup),
            None => fails_bad_request(t, a, missing_lookup_message()),
        },
        Endpoint::Fx(p) => match fx_plan(p, s.today()) {
            Some(req) => t.stage() == Stage::FetchingFx && a == (Action::FetchFx {
                currency: req.currency,
                from: req.from,
                to: req.to,
                limit: req.limit,
            }),
            None => fails_bad_request(t, a, bad_currency_message()),
        },
    }
}

/// One step of an exchange: from `s`, on event `e`, to `t`, doing `a`.
pub open spec fn next(s: Exchange, e: Event, t: Exchange, a: Action) -> bool {
    &&& t.endpoint() == s.endpoint()
    &&& t.api_key() == s.api_key()
    &&& t.today() == s.today()
    &&& t.authorized() == (s.authorized() || (e matches Event::ApiKeyChecked(r) && key_accepted(r)))
    &&& match e {
        Event::Arrived => match s.endpoint() {
            Endpoint::Health => t.stage() == Stage::PingingDatabase && a is PingDatabase,
            _ => match s.api_key() {
                None => fails_unauthorized(t, a),
                Some(k) => t.stage() == Stage::CheckingKey && (a matches Action::CheckApiKey(h) && h.0@
                    == key_hash_hex(k@)),
            },
        },
        Event::ApiKeyChecked(r) => match r {
            Ok(true) => begins_protected(s, t, a),
            Ok(false) => fails_unauthorized(t, a),
            Err(_) => fails_with_internal(t, a),
        },
        Event::DatabasePinged(r) => t.stage() == Stage::Answered && if r is Ok {
            a matches Action::Respond(Reply::HealthUp)
        } else {
            a matches Action::Respond(Reply::HealthDown)
        },
        Event::AssetsListed(r) => if r is Ok {
            answers_rows(t, a)
        } else {
            fails_with_internal(t, a)
        },
        Event::AssetResolved(r) => match r {
            Err(_) => fails_with_internal(t, a),
            Ok(None) => match s.endpoint() {
                Endpoint::Prices(_) => fails_not_found(t, a, no_such_asset()),
                _ => fails_not_found(t, a, no_catalog_entry()),
            },
            Ok(Some(id)) => match (s.endpoint(), s.pending_prices(), s.pending_catalog()) {
                (Endpoint::Prices(_), Some(req), _) => t.stage() == Stage::FetchingPrices && t.pending_prices()
                    == Some(req) && a == (Action::FetchPrices {
                    asset_id: id,
                    from: req.from,
                    to: req.to,
                    limit: req.limit,
                }),
                (Endpoint::Catalog(_), _, Some(req)) => t.stage() == Stage::FetchingCatalog && t.pending_catalog()
                    == Some(req) && a == (Action::FetchCatalog { asset_id: id, lang: req.lang }),
                _ => false,
            },
        },
        Event::PricesFetched(r) => if r is Ok {
            answers_rows(t, a)
        } else {
            fails_with_internal(t, a)
        },
        Event::CatalogFetched(r) => match r {
            Ok(true) => answers_rows(t, a),
            Ok(false) => fails_not_found(t, a, no_catalog_entry()),
            Err(_) => fails_with_internal(t, a),
        },
        Event::FxFetched(r) => if r is Ok {
            answers_rows(t, a)
        } else {
            fails_with_internal(t, a)
        },
    }
}

pub open spec fn no_readable_date(value: Option<String>) -> bool {
    match value {
        Some(v) => chrono_parsed_date(v@, iso_format()) is None,
        None => true,
    }
}

/// A well-formed prices or FX request without a readable `to`: its window ends on
/// the current day. No other request uses the date.
pub open spec fn window_ends_today(endpoint: Endpoint) -> bool {
    match endpoint {
        Endpoint::Prices(p) => lookup_for(p.asset_id, p.market, p.symbol) is Some && no_readable_date(p.to),
        Endpoint::Fx(p) => (p.currency matches Some(c) && fx_from(c@) is Some) && no_readable_date(p.to),
        _ => false,
    }
}

fn lacks_readable_date(value: &Option<String>) -> (r: bool)
    ensures
        r == no_readable_date(*value),
{
    match value {
        Some(v) => !is_iso_date(v.as_str()),
        None => true,
    }
}

fn ends_today(endpoint: &Endpoint) -> (r: bool)
    ensures
        r == window_ends_today(*endpoint),
{
    match endpoint {
        Endpoint::Prices(p) => {
            let has_lookup = p.asset_id.is_some() || (p.market.is_some() && p.symbol.is_some());
            has_lookup && lacks_readable_date(&p.to)
        },
        Endpoint::Fx(p) => {
            let supported = match &p.currency {
                Some(c) => FxCurrency::parse(c.as_str()).is_some(),
                None => false,
            };
            supported && lacks_readable_date(&p.to)
        },
        _ => false,
    }
}

impl Exchange {
    /// A request that has just arrived, with the `x-api-key` header's value (if it
    /// has one that is valid text) and the date a window without `to` ends on.
    pub fn new(endpoint: Endpoint, api_key: Option<String>, today: Date) -> (r: Exchange)
        ensures
            r.endpoint() == endpoint,
            r.api_key() == api_key,
            r.today() == today,
            r.stage() == Stage::Received,
            !r.authorized(),
    {
        Exchange { endpoint, api_key, today, stage: Stage::Received, authorized: false, prices: None, catalog: None }
    }

    /// A request that has just arrived. The clock is read only for a request whose
    /// window ends today (see `window_ends_today`); any other request is dated
    /// 1970-01-01, a date nothing it does depends on.
    pub fn arrive(endpoint: Endpoint, api_key: Option<String>) -> (r: Exchange)
        ensures
            r.endpoint() == endpoint,
            r.api_key() == api_key,
            r.stage() == Stage::Received,
            !r.authorized(),
            if window_ends_today(endpoint) {
                date_in_range(r.today())
            } else {
                r.today() == epoch()
            },
    {
        let today = if ends_today(&endpoint) {
            today_utc()
        } else {
            epoch_date()
        };
        Exchange::new(endpoint, api_key, today)
    }

    /// Whether `event` is the one this exchange waits for.
    pub fn accepts(&self, event: &Event) -> (r: bool)
        ensures
            r == expects(*self, *event),
    {
        match event {
            Event::Arrived => self.stage == Stage::Received,
            Event::ApiKeyChecked(_) => self.stage == Stage::CheckingKey,
            Event::DatabasePinged(_) => self.stage == Stage::PingingDatabase,
            Event::AssetsListed(_) => self.stage == Stage::ListingAssets,
            Event::AssetResolved(_) => self.stage == Stage::ResolvingAsset,
            Event::PricesFetched(_) => self.stage == Stage::FetchingPrices,
            Event::CatalogFetched(_) => self.stage == Stage::FetchingCatalog,
            Event::FxFetched(_) => self.stage == Stage::FetchingFx,
        }
    }

    /// Whether the exchange has been answered.
    pub fn is_answered(&self) -> (r: bool)
        ensures
            r == (self.stage() == Stage::Answered),
    {
        self.stage == Stage::Answered
    }

    fn answered(self, reply: Reply) -> (r: (Exchange, Action))
        ensures
            r.0.stage() == Stage::Answered,
            r.0.endpoint() == self.endpoint(),
            r.0.api_key() == self.api_key(),
            r.0.today() == self.today(),
            r.0.authorized() == self.authorized(),
            r.1 == Action::Respond(reply),
    {
        proof {
            use_type_invariant(&self);
        }
        (
            Exchange {
                endpoint: self.endpoint,
                api_key: self.api_key,
                today: self.today,
                stage: Stage::Answered,
                authorized: self.authorized,
                prices: self.prices,
                catalog: self.catalog,
            },
            Action::Respond(reply),
        )
    }

    fn begin_protected(self) -> (r: (Exchange, Action))
        requires
            !(self.endpoint() is Health),
            self.api_key() is Some,
        ensures
            begins_protected(self, r.0, r.1),
            r.0.endpoint() == self.endpoint(),
            r.0.api_key() == self.api_key(),
            r.0.today() == self.today(),
            r.0.authorized(),
    {
        let Exchange { endpoint, api_key, today, stage, authorized, prices, catalog } = self;
        match endpoint {
            Endpoint::Health => {
                proof {
                    assert(false);
                }
                (Exchange::new(Endpoint::Health, api_key, today), Action::PingDatabase)
            },
            Endpoint::Unreadable => (
                Exchange {
                    endpoint: Endpoint::Unreadable,
                    api_key,
                    today,
                    stage: Stage::Answered,
                    authorized: true,
                    prices,
                    catalog,
                },
                Action::Respond(Reply::QueryRejected),
            ),
            Endpoint::Assets(p) => {
                let q = asset_query(&p);
                (
                    Exchange {
                        endpoint: Endpoint::Assets(p),
                        api_key,
                        today,
                        stage: Stage::ListingAssets,
                        authorized: true,
                        prices,
                        catalog,
                    },
                    Action::ListAssets(q),
                )
            },
            Endpoint::Prices(p) => match prices_request(&p, today) {
                Ok(req) => {
                    let lookup = req.lookup.clone();
                    (
                        Exchange {
                            endpoint: Endpoint::Prices(p),
                            api_key,
                            today,
                            stage: Stage::ResolvingAsset,
                            authorized: true,
                            prices: Some(req),
                            catalog,
                        },
                        Action::ResolveAsset(lookup),
                    )
                },
                Err(e) => (
                    Exchange {
                        endpoint: Endpoint::Prices(p),
                        api_key,
                        today,
                        stage: Stage::Answered,
                        authorized: true,
                        prices,
                        catalog,
                    },
                    Action::Respond(Reply::Failure(e)),
                ),
            },
            Endpoint::Catalog(p) => match catalog_request(&p) {
                Ok(req) => {
                    let lookup = req.lookup.clone();
                    (
                        Exchange {
                            endpoint: Endpoint::Catalog(p),
                            api_key,
                            today,
                            stage: Stage::ResolvingAsset,
                            authorized: true,
                            prices,
                            catalog: Some(req),
                        },
                        Action::ResolveAsset(lookup),
                    )
                },
                Err(e) => (
                    Exchange {
                        endpoint: Endpoint::Catalog(p),
                        api_key,
                        today,
                        stage: Stage::Answered,
                        authorized: true,
                        prices,
                        catalog,
                    },
                    Action::Respond(Reply::Failure(e)),
                ),
            },
            Endpoint::Fx(p) => match fx_request(&p, today) {
                Ok(req) => (
                    Exchange {
                        endpoint: Endpoint::Fx(p),
                        api_key,
                        today,
                        stage: Stage::FetchingFx,
                        authorized: true,
                        prices,
                        catalog,
                    },
                    Action::FetchFx { currency: req.currency, from: req.from, to: req.to, limit: req.limit },
                ),
                Err(e) => (
                    Exchange {
                        endpoint: Endpoint::Fx(p),
                        api_key,
                        today,
                        stage: Stage::Answered,
                        authorized: true,
                        prices,
                        catalog,
                    },
                    Action::Respond(Reply::Failure(e)),
                ),
            },
        }
    }
}


impl Exchange {
    /// Takes the exchange one step on `event`, which must be the one it waits for
    /// (see [`Exchange::accepts`]), and returns it with the action to carry out.
    pub fn step(self, event: Event) -> (r: (Exchange, Action))
        requires
            expects(self, event),
        ensures
            next(self, event, r.0, r.1),
    {
        proof {
            use_type_invariant(&self);
        }
        match event {
            Event::Arrived => {
                if let Endpoint::Health = self.endpoint {
                    let Exchange { endpoint, api_key, today, stage, authorized, prices, catalog } = self;
                    return (
                        Exchange {
                            endpoint,
                            api_key,
                            today,
                            stage: Stage::PingingDatabase,
                            authorized,
                            prices,
                            catalog,
                        },
                        Action::PingDatabase,
                    );
                }
                match &self.api_key {
                    None => self.answered(Reply::Failure(ApiError::Unauthorized)),
                    Some(k) => {
                        let hash = ApiKeyPlaintext(k.clone()).hash();
                        let Exchange { endpoint, api_key, today, stage, authorized, prices, catalog } = self;
                        (
                            Exchange {
                                endpoint,
                                api_key,
                                today,
                                stage: Stage::CheckingKey,
                                authorized,
                                prices,
                                catalog,
                            },
                            Action::CheckApiKey(hash),
                        )
                    },
                }
            },
            Event::ApiKeyChecked(r) => match r {
                Ok(true) => self.begin_protected(),
                Ok(false) => self.answered(Reply::Failure(ApiError::Unauthorized)),
                Err(e) => self.answered(Reply::Failure(ApiError::from(e))),
            },
            Event::DatabasePinged(r) => match r {
                Ok(()) => self.answered(Reply::HealthUp),
                Err(_) => self.answered(Reply::HealthDown),
            },
            Event::AssetsListed(r) => match r {
                Ok(()) => self.answered(Reply::Rows),
                Err(e) => self.answered(Reply::Failure(ApiError::from(e))),
            },
            Event::AssetResolved(r) => match r {
                Err(e) => self.answered(Reply::Failure(ApiError::from(e))),
                Ok(None) => {
                    if let Endpoint::Prices(_) = self.endpoint {
                        self.answered(Reply::Failure(ApiError::NotFound(String::from_str("no such asset"))))
                    } else {
                        self.answered(
                            Reply::Failure(ApiError::NotFound(String::from_str("no catalog entry for this asset"))),
                        )
                    }
                },
                Ok(Some(id)) => {
                    let Exchange { endpoint, api_key, today, stage, authorized, prices, catalog } = self;
                    if let Endpoint::Prices(_) = endpoint {
                        let action = match &prices {
                            Some(req) => Action::FetchPrices {
                                asset_id: id,
                                from: req.from,
                                to: req.to,
                                limit: req.limit,
                            },
                            None => {
                                proof {
                                    assert(false);
                                }
                                Action::PingDatabase
                            },
                        };
                        (
                            Exchange {
                                endpoint,
                                api_key,
                                today,
                                stage: Stage::FetchingPrices,
                                authorized,
                                prices,
                                catalog,
                            },
                            action,
                        )
                    } else {
                        let action = match &catalog {
                            Some(req) => Action::FetchCatalog { asset_id: id, lang: req.lang },
                            None => {
                                proof {
                                    assert(false);
                                }
                                Action::PingDatabase
                            },
                        };
                        (
                            Exchange {
                                endpoint,
                                api_key,
                                today,
                                stage: Stage::FetchingCatalog,
                                authorized,
                                prices,
                                catalog,
                            },
                            action,
                        )
                    }
                },
            },
            Event::PricesFetched(r) => match r {
                Ok(()) => self.answered(Reply::Rows),
                Err(e) => self.answered(Reply::Failure(ApiError::from(e))),
            },
            Event::CatalogFetched(r) => match r {
                Ok(true) => self.answered(Reply::Rows),
                Ok(false) => self.answered(
                    Reply::Failure(ApiError::NotFound(String::from_str("no catalog entry for this asset"))),
                ),
                Err(e) => self.answered(Reply::Failure(ApiError::from(e))),
            },
            Event::FxFetched(r) => match r {
                Ok(()) => self.answered(Reply::Rows),
                Err(e) => self.answered(Reply::Failure(ApiError::from(e))),
            },
        }
    }
}


/// The key of `key`'s request was checked at step `j - 1` and accepted at step `j`.
pub open spec fn accepted_at(events: Seq<Event>, actions: Seq<Action>, key: String, j: int) -> bool {
    &&& 0 < j < events.len()
    &&& events[j] matches Event::ApiKeyChecked(r) && key_accepted(r)
    &&& actions[j - 1] matches Action::CheckApiKey(h) && h.0@ == key_hash_hex(key@)
}

/// `states`, `events` and `actions` are a run of one exchange from its arrival:
/// step `i` takes `states[i]` on `events[i]` to `states[i + 1]`, doing `actions[i]`.
pub open spec fn is_run(states: Seq<Exchange>, events: Seq<Event>, actions: Seq<Action>) -> bool {
    &&& states.len() == events.len() + 1
    &&& actions.len() == events.len()
    &&& states[0].stage() == Stage::Received
    &&& !states[0].authorized()
    &&& forall|i: int|
        0 <= i < events.len() ==> expects(#[trigger] states[i], events[i]) && next(
            states[i],
            events[i],
            states[i + 1],
            actions[i],
        )
}

pub open spec fn waits_on_data(stage: Stage) -> bool {
    ||| stage == Stage::ListingAssets
    ||| stage == Stage::ResolvingAsset
    ||| stage == Stage::FetchingPrices
    ||| stage == Stage::FetchingCatalog
    ||| stage == Stage::FetchingFx
}

spec fn run_inv(states: Seq<Exchange>, events: Seq<Event>, actions: Seq<Action>, i: int) -> bool {
    let key = states[0].api_key();
    &&& states[i].api_key() == key
    &&& states[i].stage() == Stage::CheckingKey ==> 0 < i && key is Some && (actions[i - 1] matches Action::CheckApiKey(
        h,
    ) && h.0@ == key_hash_hex(key->0@))
    &&& waits_on_data(states[i].stage()) ==> states[i].authorized()
    &&& states[i].authorized() ==> key is Some && exists|j: int| 0 < j < i && accepted_at(events, actions, key->0, j)
}

proof fn lemma_run_inv(states: Seq<Exchange>, events: Seq<Event>, actions: Seq<Action>, i: int)
    requires
        is_run(states, events, actions),
        0 <= i <= events.len(),
    ensures
        run_inv(states, events, actions, i),
    decreases i,
{
    if i > 0 {
        lemma_run_inv(states, events, actions, i - 1);
        let s = states[i - 1];
        let t = states[i];
        let e = events[i - 1];
        let a = actions[i - 1];
        assert(expects(s, e) && next(s, e, t, a));
        let key = states[0].api_key();
        if t.authorized() && !s.authorized() {
            assert(e matches Event::ApiKeyChecked(r) && key_accepted(r));
            assert(s.stage() == Stage::CheckingKey);
            assert(accepted_at(events, actions, key->0, i - 1));
        }
        if t.authorized() && s.authorized() {
            let j = choose|j: int| 0 < j < i - 1 && accepted_at(events, actions, key->0, j);
            assert(accepted_at(events, actions, key->0, j));
        }
    }
}

/// Law: in every run of an exchange, an action that reads asset, price, catalog or
/// FX data comes only after the request's own API key was sent to the key store as
/// its hash and the store accepted it; a request without a key never gets there.
pub proof fn data_only_after_accepted_key(states: Seq<Exchange>, events: Seq<Event>, actions: Seq<Action>, i: int)
    requires
        is_run(states, events, actions),
        0 <= i < actions.len(),
        reaches_data(actions[i]),
    ensures
        states[0].api_key() is Some,
        exists|j: int| 0 < j <= i && accepted_at(events, actions, states[0].api_key()->0, j),
{
    lemma_run_inv(states, events, actions, i);
    let s = states[i];
    let e = events[i];
    assert(expects(s, e) && next(s, e, states[i + 1], actions[i]));
    let key = states[0].api_key();
    if s.authorized() {
        let j = choose|j: int| 0 < j < i && accepted_at(events, actions, key->0, j);
        assert(accepted_at(events, actions, key->0, j));
    } else {
        assert(e matches Event::ApiKeyChecked(r) && key_accepted(r));
        assert(accepted_at(events, actions, key->0, i));
    }
}

/// What action `a`, taken on event `e`, asks of the request `endpoint` made on day
/// `today`: its listing is the one its parameters ask for, it resolves the asset its
/// parameters name, and it fetches the resolved asset, or the named currency, with
/// the window and limit its parameters give.
pub open spec fn follows_request(endpoint: Endpoint, today: Date, e: Event, a: Action) -> bool {
    match a {
        Action::ListAssets(q) => endpoint matches Endpoint::Assets(p) && q == asset_query_spec(p),
        Action::ResolveAsset(l) => {
            ||| endpoint matches Endpoint::Prices(p) && prices_plan(p, today) matches Some(req) && l == req.lookup
            ||| endpoint matches Endpoint::Catalog(p) && catalog_plan(p) matches Some(req) && l == req.lookup
        },
        Action::FetchPrices { asset_id, from, to, limit } => {
            &&& endpoint matches Endpoint::Prices(p) && prices_plan(p, today) matches Some(req) && from == req.from && to
                == req.to && limit == req.limit
            &&& e matches Event::AssetResolved(Ok(Some(x))) && x == asset_id
        },
        Action::FetchCatalog { asset_id, lang } => {
            &&& endpoint matches Endpoint::Catalog(p) && catalog_plan(p) matches Some(req) && lang == req.lang
            &&& e matches Event::AssetResolved(Ok(Some(x))) && x == asset_id
        },
        Action::FetchFx { currency, from, to, limit } => endpoint matches Endpoint::Fx(p) && fx_plan(p, today) matches Some(
            req,
        ) && currency == req.currency && from == req.from && to == req.to && limit == req.limit,
        _ => true,
    }
}

spec fn plan_inv(states: Seq<Exchange>, i: int) -> bool {
    let s = states[i];
    &&& s.endpoint() == states[0].endpoint()
    &&& s.today() == states[0].today()
    &&& (s.stage() == Stage::ResolvingAsset || s.stage() == Stage::FetchingPrices) ==> (s.endpoint() matches Endpoint::Prices(
        p,
    ) ==> s.pending_prices() == prices_plan(p, s.today()))
    &&& (s.stage() == Stage::ResolvingAsset || s.stage() == Stage::FetchingCatalog) ==> (s.endpoint() matches Endpoint::Catalog(
        p,
    ) ==> s.pending_catalog() == catalog_plan(p))
}

proof fn lemma_plan_inv(states: Seq<Exchange>, events: Seq<Event>, actions: Seq<Action>, i: int)
    requires
        is_run(states, events, actions),
        0 <= i <= events.len(),
    ensures
        plan_inv(states, i),
    decreases i,
{
    if i > 0 {
        lemma_plan_inv(states, events, actions, i - 1);
        assert(expects(states[i - 1], events[i - 1]) && next(states[i - 1], events[i - 1], states[i], actions[i - 1]));
    }
}

/// Law: in every run of an exchange, each database call it asks for is the one the
/// request's parameters ask for: the listing they describe, the asset they name, and
/// the resolved asset's (or the named currency's) rows in the window and up to the
/// limit they give.
pub proof fn calls_follow_the_request(states: Seq<Exchange>, events: Seq<Event>, actions: Seq<Action>, i: int)
    requires
        is_run(states, events, actions),
        0 <= i < actions.len(),
    ensures
        follows_request(states[0].endpoint(), states[0].today(), events[i], actions[i]),
{
    lemma_plan_inv(states, events, actions, i);
    assert(expects(states[i], events[i]) && next(states[i], events[i], states[i + 1], actions[i]));
}

/// Law: `/api/health` is public. On arrival it asks for the database ping whatever
/// key the request carries, and its reply depends only on the ping.
pub proof fn health_needs_no_key(s: Exchange, t: Exchange, a: Action)
    requires
        s.stage() == Stage::Received,
        s.endpoint() is Health,
        next(s, Event::Arrived, t, a),
    ensures
        a is PingDatabase,
        t.stage() == Stage::PingingDatabase,
{
}

/// Law: a protected route whose request carries no key is answered 401 at once.
pub proof fn missing_key_is_unauthorized(s: Exchange, t: Exchange, a: Action)
    requires
        s.stage() == Stage::Received,
        !(s.endpoint() is Health),
        s.api_key() is None,
        next(s, Event::Arrived, t, a),
    ensures
        a matches Action::Respond(Reply::Failure(ApiError::Unauthorized)),
        t.stage() == Stage::Answered,
{
}


/// Law: a key the store does not know as active is answered 401 and asks for
/// nothing else.
pub proof fn refused_key_is_unauthorized(s: Exchange, t: Exchange, a: Action)
    requires
        s.stage() == Stage::CheckingKey,
        next(s, Event::ApiKeyChecked(Ok(false)), t, a),
    ensures
        a matches Action::Respond(Reply::Failure(ApiError::Unauthorized)),
        t.stage() == Stage::Answered,
        t.authorized() == s.authorized(),
{
}

/// Law: a well-formed lookup that resolves to no asset is answered 404, never 400;
/// one that resolves asks for that asset's rows.
pub proof fn unresolved_asset_is_not_found(s: Exchange, r: Result<Option<AssetId>, sqlx::Error>, t: Exchange, a: Action)
    requires
        s.stage() == Stage::ResolvingAsset,
        next(s, Event::AssetResolved(r), t, a),
    ensures
        r matches Ok(None) ==> (a matches Action::Respond(Reply::Failure(e)) && e is NotFound),
        r matches Ok(Some(id)) ==> (a matches Action::FetchPrices { asset_id, .. } && asset_id == id) || (
        a matches Action::FetchCatalog { asset_id, .. } && asset_id == id),
{
}

/// Law: a failed database call -- the key store's included -- is answered 500 with
/// only "internal error", never with the database's own message, and never 401.
pub proof fn database_failure_is_internal_error(s: Exchange, e: Event, t: Exchange, a: Action)
    requires
        expects(s, e),
        next(s, e, t, a),
        match e {
            Event::ApiKeyChecked(r) => r is Err,
            Event::AssetsListed(r) => r is Err,
            Event::AssetResolved(r) => r is Err,
            Event::PricesFetched(r) => r is Err,
            Event::CatalogFetched(r) => r is Err,
            Event::FxFetched(r) => r is Err,
            _ => false,
        },
    ensures
        a matches Action::Respond(Reply::Failure(err)) && crate::http::error::error_status(err) == 500
            && crate::http::error::error_message(err) == "internal error"@,
        t.stage() == Stage::Answered,
{
}

} // verus!
