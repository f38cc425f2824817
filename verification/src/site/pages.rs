//! The homepage, `robots.txt` and `sitemap.xml`.

use vstd::prelude::*;

use super::html::{
    markets_html, markets_rows, opt_vec_view, stablecoin_rows, stablecoins_html, stock_rows, stocks_html,
    MarketRow, StablecoinRow, StockRow,
};
use crate::text::{replace_all, replace_str};

verus! {

/// A page reply: status, `Content-Type`, `Cache-Control` and body.
#[derive(Debug, Clone)]
pub struct Page {
    pub status: u16,
    pub content_type: &'static str,
    pub cache_control: &'static str,
    pub body: String,
}

/// The homepage: the template with its three table placeholders replaced, one after
/// the other, by the markets, US stocks and stablecoins rows.
pub open spec fn index_html(
    template: Seq<char>,
    markets: Option<Seq<MarketRow>>,
    stocks: Option<Seq<StockRow>>,
    stablecoins: Option<Seq<StablecoinRow>>,
) -> Seq<char> {
    replace_all(
        replace_all(
            replace_all(template, "{{MARKETS_ROWS}}"@, markets_html(markets)),
            "{{STOCK_ROWS}}"@,
            stocks_html(stocks),
        ),
        "{{STABLECOIN_ROWS}}"@,
        stablecoins_html(stablecoins),
    )
}

/// The homepage, never cached, built from the template and the three tables' rows
/// (`None` where they could not be loaded).
pub fn index_page(
    template: &str,
    markets: &Option<Vec<MarketRow>>,
    stocks: &Option<Vec<StockRow>>,
    stablecoins: &Option<Vec<StablecoinRow>>,
) -> (r: Page)
    ensures
        r.status == 200,
        r.content_type@ == "text/html; charset=utf-8"@,
        r.cache_control@ == "no-cache"@,
        r.body@ == index_html(template@, opt_vec_view(*markets), opt_vec_view(*stocks), opt_vec_view(*stablecoins)),
{
    proof {
        reveal_strlit("{{MARKETS_ROWS}}");
        reveal_strlit("{{STOCK_ROWS}}");
        reveal_strlit("{{STABLECOIN_ROWS}}");
    }
    let m = markets_rows(markets);
    let s = stock_rows(stocks);
    let c = stablecoin_rows(stablecoins);
    let page = replace_str(template, "{{MARKETS_ROWS}}", m.as_str());
    let page = replace_str(page.as_str(), "{{STOCK_ROWS}}", s.as_str());
    let page = replace_str(page.as_str(), "{{STABLECOIN_ROWS}}", c.as_str());
    Page { status: 200, content_type: "text/html; charset=utf-8", cache_control: "no-cache", body: page }
}

pub open spec fn robots_body() -> Seq<char> {
    "User-agent: *\nAllow: /\n\nSitemap: https://www.cryptoally.dev/sitemap.xml\n"@
}

/// `robots.txt`: everything may be crawled; the sitemap's address.
pub fn robots() -> (r: Page)
    ensures
        r.status == 200,
        r.content_type@ == "text/plain; charset=utf-8"@,
        r.cache_control@ == "public, max-age=86400"@,
        r.body@ == robots_body(),
{
    Page {
        status: 200,
        content_type: "text/plain; charset=utf-8",
        cache_control: "public, max-age=86400",
        body: String::from_str("User-agent: *\nAllow: /\n\nSitemap: https://www.cryptoally.dev/sitemap.xml\n"),
    }
}

pub open spec fn sitemap_body() -> Seq<char> {
    "<?xml version=\"1.0\" encoding=\"UTF-8\"?>\n<urlset xmlns=\"http://www.sitemaps.org/schemas/sitemap/0.9\">\n  <url>\n    <loc>https://www.cryptoally.dev/</loc>\n    <changefreq>daily</changefreq>\n    <priority>1.0</priority>\n  </url>\n</urlset>\n"@
}

/// `sitemap.xml`: the one page of the site.
pub fn sitemap() -> (r: Page)
    ensures
        r.status == 200,
        r.content_type@ == "application/xml; charset=utf-8"@,
        r.cache_control@ == "public, max-age=86400"@,
        r.body@ == sitemap_body(),
{
    Page {
        status: 200,
        content_type: "application/xml; charset=utf-8",
        cache_control: "public, max-age=86400",
        body: String::from_str(
            "<?xml version=\"1.0\" encoding=\"UTF-8\"?>\n<urlset xmlns=\"http://www.sitemaps.org/schemas/sitemap/0.9\">\n  <url>\n    <loc>https://www.cryptoally.dev/</loc>\n    <changefreq>daily</changefreq>\n    <priority>1.0</priority>\n  </url>\n</urlset>\n",
        ),
    }
}

} // verus!
