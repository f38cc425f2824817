//! The public pages besides the API: the homepage with its live tables, and the
//! `robots.txt` and `sitemap.xml` that describe the site to crawlers.

pub mod html;
pub mod pages;
