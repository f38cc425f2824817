//! `GET /api/fx?currency=BRL&from=2024-01-01&to=2024-12-31`
//!
//! Daily USD value of one unit of `currency`. Supports `BRL`, `CNY`, `JPY`, `EUR`,
//! `KRW`; an unsupported or missing `currency` is a 400, not an empty array.

use vstd::prelude::*;

use super::{date_law, date_param, date_taken, limit_fits, opt_string_view};
use crate::domain::dates::{date_or, epoch, epoch_date, Date};
use crate::domain::types::{clamp, clamp_i64, fx_code, fx_from, fx_selection, or_default, FxCurrency};
use crate::http::error::ApiError;

verus! {

pub const DEFAULT_LIMIT: i64 = 2000;

pub const MAX_LIMIT: i64 = 10000;

/// The query parameters of an FX history request.
#[derive(Debug, Clone)]
pub struct FxParams {
    pub currency: Option<String>,
    pub from: Option<String>,
    pub to: Option<String>,
    pub limit: Option<i64>,
}

/// A well-formed FX history request.
#[derive(Debug, Clone, Copy)]
pub struct FxRequest {
    pub currency: FxCurrency,
    pub from: Date,
    pub to: Date,
    pub limit: i64,
}

pub open spec fn bad_currency_message() -> Seq<char> {
    "currency must be one of: BRL, CNY, JPY, EUR, KRW"@
}

/// The currency named (none without a supported one), `from` as given or
/// 1970-01-01, `to` as given or today, and the limit clamped into `[1, 10000]`
/// (2000 by default).
pub open spec fn fx_plan(params: FxParams, today: Date) -> Option<FxRequest> {
    let currency = match params.currency {
        Some(c) => fx_from(c@),
        None => None,
    };
    match currency {
        Some(c) => Some(FxRequest {
            currency: c,
            from: date_or(opt_string_view(params.from), epoch()),
            to: date_or(opt_string_view(params.to), today),
            limit: clamp(or_default(params.limit, DEFAULT_LIMIT), 1, MAX_LIMIT as int) as i64,
        }),
        None => None,
    }
}


/// The currency value names a supported currency.
pub open spec fn names_supported_currency(value: Option<String>) -> bool {
    value matches Some(c) && exists|cur: FxCurrency| fx_code(cur) == c@
}

/// Law: an FX request exists exactly when the `currency` value is a supported code;
/// its currency is the one with that code, its window runs from the `from` date
/// chrono reads (1970-01-01 when there is none) to the `to` date it reads (today
/// when there is none), and its limit is the requested one (2000 when absent) when
/// that lies in `[1, 10000]`, else the nearer bound.
pub proof fn fx_request_law(params: FxParams, today: Date)
    ensures
        fx_plan(params, today) is Some <==> names_supported_currency(params.currency),
        fx_plan(params, today) matches Some(req) ==> {
            &&& fx_code(req.currency) == params.currency->0@
            &&& date_taken(params.from, Date { year: 1970, month: 1, day: 1 }, req.from)
            &&& date_taken(params.to, today, req.to)
            &&& limit_fits(params.limit, 2000, 10000, req.limit as int)
        },
{
    date_law(params.from, epoch());
    date_law(params.to, today);
    if let Some(c) = params.currency {
        fx_selection(c@);
        if let Some(cur) = fx_from(c@) {
            assert(fx_code(cur) == c@);
        }
    }
}

/// Builds the FX history request of a query.
pub fn fx_request(params: &FxParams, today: Date) -> (r: Result<FxRequest, ApiError>)
    ensures
        match fx_plan(*params, today) {
            Some(req) => r == Ok::<FxRequest, ApiError>(req),
            None => r matches Err(ApiError::BadRequest(m)) && m@ == bad_currency_message(),
        },
        r is Ok <==> names_supported_currency(params.currency),
        r matches Ok(req) ==> {
            &&& fx_code(req.currency) == params.currency->0@
            &&& date_taken(params.from, Date { year: 1970, month: 1, day: 1 }, req.from)
            &&& date_taken(params.to, today, req.to)
            &&& limit_fits(params.limit, 2000, 10000, req.limit as int)
        },
{
    proof {
        fx_request_law(*params, today);
    }
    let currency = match &params.currency {
        Some(c) => FxCurrency::parse(c.as_str()),
        None => None,
    };
    let currency = match currency {
        Some(c) => c,
        None => return Err(ApiError::BadRequest(String::from_str("currency must be one of: BRL, CNY, JPY, EUR, KRW"))),
    };
    let from = date_param(&params.from, epoch_date());
    let to = date_param(&params.to, today);
    let limit = clamp_i64(
        match params.limit {
            Some(v) => v,
            None => DEFAULT_LIMIT,
        },
        1,
        MAX_LIMIT,
    );
    Ok(FxRequest { currency, from, to, limit })
}

} // verus!
