//! HTML escaping and the rows of the homepage's live tables.

use vstd::prelude::*;

use crate::text::{
    avoids, chars_of, decimal, decimal_text, lemma_replace_leading, lemma_replace_passes, replace_all, replace_chars,
    string_from_chars,
};

verus! {

/// `&`, `<` and `>` replaced by their entities in three passes over the text,
/// `&` first, so that the `&` of a new entity is never replaced again.
pub open spec fn escape_spec(s: Seq<char>) -> Seq<char> {
    replace_all(
        replace_all(replace_all(s, seq!['&'], seq!['&', 'a', 'm', 'p', ';']), seq!['<'], seq!['&', 'l', 't', ';']),
        seq!['>'],
        seq!['&', 'g', 't', ';'],
    )
}

fn one_char(c: char) -> (r: Vec<char>)
    ensures
        r@ == seq![c],
{
    let mut v: Vec<char> = Vec::new();
    v.push(c);
    assert(v@ =~= seq![c]);
    v
}

fn entity(a: char, b: char, c: char, d: char) -> (r: Vec<char>)
    ensures
        r@ == seq![a, b, c, d],
{
    let mut v: Vec<char> = Vec::new();
    v.push(a);
    v.push(b);
    v.push(c);
    v.push(d);
    assert(v@ =~= seq![a, b, c, d]);
    v
}

/// Escapes `&`, `<` and `>` for use in HTML text.
pub fn escape(s: &str) -> (r: String)
    ensures
        r@ == escape_spec(s@),
{
    let chars = chars_of(s);
    let mut amp = entity('&', 'a', 'm', 'p');
    amp.push(';');
    assert(amp@ =~= seq!['&', 'a', 'm', 'p', ';']);
    let step1 = replace_chars(&chars, &one_char('&'), &amp);
    let step2 = replace_chars(&step1, &one_char('<'), &entity('&', 'l', 't', ';'));
    let step3 = replace_chars(&step2, &one_char('>'), &entity('&', 'g', 't', ';'));
    string_from_chars(&step3)
}

proof fn lemma_replace_char_removes(s: Seq<char>, c: char, rep: Seq<char>)
    requires
        !rep.contains(c),
    ensures
        !replace_all(s, seq![c], rep).contains(c),
    decreases s.len(),
{
    if s.len() >= 1 {
        if s.take(1) == seq![c] {
            lemma_replace_char_removes(s.skip(1), c, rep);
            assert(!(rep + replace_all(s.skip(1), seq![c], rep)).contains(c)) by {
                let t = rep + replace_all(s.skip(1), seq![c], rep);
                assert forall|i: int| 0 <= i < t.len() implies t[i] != c by {
                    if i >= rep.len() {
                        assert(t[i] == replace_all(s.skip(1), seq![c], rep)[i - rep.len()]);
                    }
                }
            }
        } else {
            assert(s[0] != c) by {
                if s[0] == c {
                    assert(s.take(1) =~= seq![c]);
                }
            }
            lemma_replace_char_removes(s.skip(1), c, rep);
            let t = seq![s[0]] + replace_all(s.skip(1), seq![c], rep);
            assert forall|i: int| 0 <= i < t.len() implies t[i] != c by {
                if i >= 1 {
                    assert(t[i] == replace_all(s.skip(1), seq![c], rep)[i - 1]);
                }
            }
        }
    }
}

proof fn lemma_replace_char_keeps_absent(s: Seq<char>, c: char, rep: Seq<char>, d: char)
    requires
        !s.contains(d),
        !rep.contains(d),
    ensures
        !replace_all(s, seq![c], rep).contains(d),
    decreases s.len(),
{
    if s.len() >= 1 {
        assert(!s.skip(1).contains(d)) by {
            assert forall|i: int| 0 <= i < s.skip(1).len() implies s.skip(1)[i] != d by {
                assert(s.skip(1)[i] == s[i + 1]);
            }
        }
        lemma_replace_char_keeps_absent(s.skip(1), c, rep, d);
        let r = replace_all(s.skip(1), seq![c], rep);
        if s.take(1) == seq![c] {
            let t = rep + r;
            assert forall|i: int| 0 <= i < t.len() implies t[i] != d by {
                if i >= rep.len() {
                    assert(t[i] == r[i - rep.len()]);
                }
            }
        } else {
            assert(s[0] != d);
            let t = seq![s[0]] + r;
            assert forall|i: int| 0 <= i < t.len() implies t[i] != d by {
                if i >= 1 {
                    assert(t[i] == r[i - 1]);
                }
            }
        }
    }
}

/// Law: escaped text holds no `<` and no `>`, so it can open or close no tag.
pub proof fn escaped_text_has_no_angle_brackets(s: Seq<char>)
    ensures
        !escape_spec(s).contains('<'),
        !escape_spec(s).contains('>'),
{
    let amp = seq!['&', 'a', 'm', 'p', ';'];
    let lt = seq!['&', 'l', 't', ';'];
    let gt = seq!['&', 'g', 't', ';'];
    let s1 = replace_all(s, seq!['&'], amp);
    let s2 = replace_all(s1, seq!['<'], lt);
    assert(!lt.contains('<')) by {
        assert forall|i: int| 0 <= i < lt.len() implies lt[i] != '<' by {}
    }
    assert(!gt.contains('<')) by {
        assert forall|i: int| 0 <= i < gt.len() implies gt[i] != '<' by {}
    }
    assert(!gt.contains('>')) by {
        assert forall|i: int| 0 <= i < gt.len() implies gt[i] != '>' by {}
    }
    lemma_replace_char_removes(s1, '<', lt);
    lemma_replace_char_keeps_absent(s2, '>', gt, '<');
    lemma_replace_char_removes(s2, '>', gt);
}


pub open spec fn amp() -> Seq<char> {
    seq!['&', 'a', 'm', 'p', ';']
}

pub open spec fn lt() -> Seq<char> {
    seq!['&', 'l', 't', ';']
}

pub open spec fn gt() -> Seq<char> {
    seq!['&', 'g', 't', ';']
}

/// What escaping makes of one character.
pub open spec fn entity_of(c: char) -> Seq<char> {
    if c == '&' {
        amp()
    } else if c == '<' {
        lt()
    } else if c == '>' {
        gt()
    } else {
        seq![c]
    }
}

/// `f` applied to every character of `s`, the results concatenated.
pub open spec fn each(s: Seq<char>, f: spec_fn(char) -> Seq<char>) -> Seq<char>
    decreases s.len(),
{
    if s.len() == 0 {
        seq![]
    } else {
        f(s[0]) + each(s.skip(1), f)
    }
}

/// `"&lt;"` by `<`, then `"&gt;"` by `>`, then `"&amp;"` by `&`.
pub open spec fn unescape_spec(t: Seq<char>) -> Seq<char> {
    replace_all(replace_all(replace_all(t, lt(), seq!['<']), gt(), seq!['>']), amp(), seq!['&'])
}

/// How often `c` occurs in `s`.
pub open spec fn count_char(s: Seq<char>, c: char) -> nat
    decreases s.len(),
{
    if s.len() == 0 {
        0
    } else {
        (if s[0] == c {
            1nat
        } else {
            0nat
        }) + count_char(s.skip(1), c)
    }
}

spec fn keep(c: char) -> Seq<char> {
    seq![c]
}

spec fn escape_amp(c: char) -> Seq<char> {
    if c == '&' {
        amp()
    } else {
        seq![c]
    }
}

spec fn escape_amp_lt(c: char) -> Seq<char> {
    if c == '&' {
        amp()
    } else if c == '<' {
        lt()
    } else {
        seq![c]
    }
}

spec fn escape_amp_gt(c: char) -> Seq<char> {
    if c == '&' {
        amp()
    } else if c == '>' {
        gt()
    } else {
        seq![c]
    }
}

proof fn lemma_each_replace(s: Seq<char>, f: spec_fn(char) -> Seq<char>, g: spec_fn(char) -> Seq<char>, pat: Seq<char>, rep: Seq<char>)
    requires
        pat.len() > 0,
        forall|c: char| (#[trigger] f(c) == pat && g(c) == rep) || (g(c) == f(c) && avoids(f(c), pat)),
    ensures
        replace_all(each(s, f), pat, rep) == each(s, g),
    decreases s.len(),
{
    if s.len() > 0 {
        lemma_each_replace(s.skip(1), f, g, pat, rep);
        let c = s[0];
        let f_c = f(c);
        if f_c == pat {
            lemma_replace_leading(each(s.skip(1), f), pat, rep);
        } else {
            lemma_replace_passes(f_c, each(s.skip(1), f), pat, rep);
        }
    }
}

proof fn lemma_each_keep(s: Seq<char>)
    ensures
        each(s, |c: char| keep(c)) == s,
    decreases s.len(),
{
    if s.len() > 0 {
        lemma_each_keep(s.skip(1));
        assert(s =~= seq![s[0]] + s.skip(1));
    }
}

proof fn lemma_entities_avoid()
    ensures
        avoids(amp(), seq!['<']),
        avoids(amp(), seq!['>']),
        avoids(lt(), seq!['>']),
        avoids(amp(), lt()),
        avoids(gt(), lt()),
        avoids(amp(), gt()),
        forall|c: char, d: char| c != d ==> avoids(#[trigger] seq![c], #[trigger] seq![d]),
        forall|c: char| c != '&' ==> (avoids(#[trigger] seq![c], lt()) && avoids(seq![c], gt()) && avoids(
            seq![c],
            amp(),
        )),
{
    assert(avoids(amp(), seq!['<'])) by {
        assert forall|i: int| 0 <= i < amp().len() implies #[trigger] amp()[i] != seq!['<'][0] || (seq!['<'].len() >= 2
            && i + 1 < amp().len() && amp()[i + 1] != seq!['<'][1]) by {}
    }
    assert(avoids(amp(), seq!['>'])) by {
        assert forall|i: int| 0 <= i < amp().len() implies #[trigger] amp()[i] != seq!['>'][0] || (seq!['>'].len() >= 2
            && i + 1 < amp().len() && amp()[i + 1] != seq!['>'][1]) by {}
    }
    assert(avoids(lt(), seq!['>'])) by {
        assert forall|i: int| 0 <= i < lt().len() implies #[trigger] lt()[i] != seq!['>'][0] || (seq!['>'].len() >= 2
            && i + 1 < lt().len() && lt()[i + 1] != seq!['>'][1]) by {}
    }
    assert(avoids(amp(), lt())) by {
        assert forall|i: int| 0 <= i < amp().len() implies #[trigger] amp()[i] != lt()[0] || (lt().len() >= 2 && i + 1
            < amp().len() && amp()[i + 1] != lt()[1]) by {}
    }
    assert(avoids(gt(), lt())) by {
        assert forall|i: int| 0 <= i < gt().len() implies #[trigger] gt()[i] != lt()[0] || (lt().len() >= 2 && i + 1
            < gt().len() && gt()[i + 1] != lt()[1]) by {}
    }
    assert(avoids(amp(), gt())) by {
        assert forall|i: int| 0 <= i < amp().len() implies #[trigger] amp()[i] != gt()[0] || (gt().len() >= 2 && i + 1
            < amp().len() && amp()[i + 1] != gt()[1]) by {}
    }
    assert forall|c: char, d: char| c != d implies avoids(#[trigger] seq![c], #[trigger] seq![d]) by {
        assert forall|i: int| 0 <= i < seq![c].len() implies #[trigger] seq![c][i] != seq![d][0] || (seq![d].len() >= 2
            && i + 1 < seq![c].len() && seq![c][i + 1] != seq![d][1]) by {}
    }
    assert forall|c: char| c != '&' implies (avoids(#[trigger] seq![c], lt()) && avoids(seq![c], gt()) && avoids(
        seq![c],
        amp(),
    )) by {
        assert forall|i: int| 0 <= i < seq![c].len() implies #[trigger] seq![c][i] != lt()[0] || (lt().len() >= 2 && i
            + 1 < seq![c].len() && seq![c][i + 1] != lt()[1]) by {}
        assert forall|i: int| 0 <= i < seq![c].len() implies #[trigger] seq![c][i] != gt()[0] || (gt().len() >= 2 && i
            + 1 < seq![c].len() && seq![c][i + 1] != gt()[1]) by {}
        assert forall|i: int| 0 <= i < seq![c].len() implies #[trigger] seq![c][i] != amp()[0] || (amp().len() >= 2 && i
            + 1 < seq![c].len() && seq![c][i + 1] != amp()[1]) by {}
    }
}

/// Escaping maps every character on its own: `&`, `<` and `>` to their entities,
/// every other character to itself.
pub proof fn escape_is_per_character(s: Seq<char>)
    ensures
        escape_spec(s) == each(s, |c: char| entity_of(c)),
{
    lemma_entities_avoid();
    lemma_each_keep(s);
    lemma_each_replace(s, |c: char| keep(c), |c: char| escape_amp(c), seq!['&'], amp());
    lemma_each_replace(s, |c: char| escape_amp(c), |c: char| escape_amp_lt(c), seq!['<'], lt());
    lemma_each_replace(s, |c: char| escape_amp_lt(c), |c: char| entity_of(c), seq!['>'], gt());
}

/// Law: unescaping (`&lt;`, then `&gt;`, then `&amp;`) gives the escaped text back.
pub proof fn unescape_inverts_escape(s: Seq<char>)
    ensures
        unescape_spec(escape_spec(s)) == s,
{
    escape_is_per_character(s);
    lemma_entities_avoid();
    lemma_each_replace(s, |c: char| entity_of(c), |c: char| escape_amp_gt(c), lt(), seq!['<']);
    lemma_each_replace(s, |c: char| escape_amp_gt(c), |c: char| escape_amp(c), gt(), seq!['>']);
    lemma_each_replace(s, |c: char| escape_amp(c), |c: char| keep(c), amp(), seq!['&']);
    lemma_each_keep(s);
}

proof fn lemma_entities_length(s: Seq<char>)
    ensures
        each(s, |c: char| entity_of(c)).len() == s.len() + 4 * count_char(s, '&') + 3 * count_char(s, '<') + 3
            * count_char(s, '>'),
    decreases s.len(),
{
    if s.len() > 0 {
        lemma_entities_length(s.skip(1));
    }
}

/// Law: escaping lengthens the text by 4 for every `&` and by 3 for every `<` and `>`.
pub proof fn escaped_length(s: Seq<char>)
    ensures
        escape_spec(s).len() == s.len() + 4 * count_char(s, '&') + 3 * count_char(s, '<') + 3 * count_char(s, '>'),
{
    escape_is_per_character(s);
    lemma_entities_length(s);
}

/// One row of the markets table: slug, name, exchange, currency, country code and
/// the number of assets listed on the market.
#[derive(Debug, Clone)]
pub struct MarketRow {
    pub slug: String,
    pub name: String,
    pub exchange: Option<String>,
    pub currency: String,
    pub country_code: Option<String>,
    pub asset_count: i64,
}

/// One row of the US stocks table.
#[derive(Debug, Clone)]
pub struct StockRow {
    pub symbol: String,
    pub name: String,
    pub asset_type: String,
}

/// One row of the stablecoins table.
#[derive(Debug, Clone)]
pub struct StablecoinRow {
    pub symbol: String,
    pub name: String,
}

/// The rows of every element of `rows`, in order, concatenated.
pub open spec fn concat_rows<R>(rows: Seq<R>, f: spec_fn(R) -> Seq<char>) -> Seq<char>
    decreases rows.len(),
{
    if rows.len() == 0 {
        seq![]
    } else {
        concat_rows(rows.drop_last(), f) + f(rows.last())
    }
}

/// A table's body: the rows of a non-empty result, a note when there are none,
/// another when the rows could not be loaded.
pub open spec fn table_body<R>(rows: Option<Seq<R>>, f: spec_fn(R) -> Seq<char>, empty: Seq<char>, unavailable: Seq<char>) -> Seq<char> {
    match rows {
        Some(v) => if v.len() == 0 {
            empty
        } else {
            concat_rows(v, f)
        },
        None => unavailable,
    }
}

/// An optional text, escaped, or an em dash when absent.
pub open spec fn escaped_or_dash(v: Option<String>) -> Seq<char> {
    match v {
        Some(s) => escape_spec(s@),
        None => seq!['\u{2014}'],
    }
}

pub open spec fn market_row_html(r: MarketRow) -> Seq<char> {
    "<tr><td><strong>"@ + escape_spec(r.name@) + "</strong></td><td>"@ + escaped_or_dash(r.exchange) + "</td><td>"@
        + escape_spec(r.currency@) + "</td><td>"@ + escaped_or_dash(r.country_code) + "</td><td>"@ + decimal(
        r.asset_count as int,
    ) + "</td></tr>"@
}

/// The asset type goes into the row unescaped, as a CSS class and as the tag text.
pub open spec fn stock_row_html(r: StockRow) -> Seq<char> {
    "<tr><td class=\"symbol\">"@ + escape_spec(r.symbol@) + "</td><td>"@ + escape_spec(r.name@)
        + "</td><td><span class=\"type-tag type-"@ + r.asset_type@ + "\">"@ + r.asset_type@ + "</span></td></tr>"@
}

pub open spec fn stablecoin_row_html(r: StablecoinRow) -> Seq<char> {
    "<tr><td class=\"symbol\">"@ + escape_spec(r.symbol@) + "</td><td>"@ + escape_spec(r.name@) + "</td></tr>"@
}

pub open spec fn markets_html(rows: Option<Seq<MarketRow>>) -> Seq<char> {
    table_body(
        rows,
        |r: MarketRow| market_row_html(r),
        "<tr><td colspan=\"5\" class=\"empty-note\">No markets found.</td></tr>"@,
        "<tr><td colspan=\"5\" class=\"empty-note\">Unable to load live data right now.</td></tr>"@,
    )
}

pub open spec fn stocks_html(rows: Option<Seq<StockRow>>) -> Seq<char> {
    table_body(
        rows,
        |r: StockRow| stock_row_html(r),
        "<tr><td colspan=\"3\" class=\"empty-note\">No stocks found.</td></tr>"@,
        "<tr><td colspan=\"3\" class=\"empty-note\">Unable to load live data right now.</td></tr>"@,
    )
}

pub open spec fn stablecoins_html(rows: Option<Seq<StablecoinRow>>) -> Seq<char> {
    table_body(
        rows,
        |r: StablecoinRow| stablecoin_row_html(r),
        "<tr><td colspan=\"2\" class=\"empty-note\">No stablecoins found.</td></tr>"@,
        "<tr><td colspan=\"2\" class=\"empty-note\">Unable to load live data right now.</td></tr>"@,
    )
}

proof fn lemma_concat_rows_push<R>(v: Seq<R>, r: R, f: spec_fn(R) -> Seq<char>)
    ensures
        concat_rows(v.push(r), f) == concat_rows(v, f) + f(r),
{
    assert(v.push(r).drop_last() =~= v);
}

/// Law: the markets table has one row per entry, in order: a single entry's table
/// is its row, and appending an entry to a non-empty list appends its row; no
/// entries give the "No markets found." note, and rows that could not be loaded the
/// "Unable to load live data right now." note.
pub proof fn markets_table_law(v: Seq<MarketRow>, r: MarketRow)
    ensures
        markets_html(Some(seq![r])) == market_row_html(r),
        v.len() > 0 ==> markets_html(Some(v.push(r))) == markets_html(Some(v)) + market_row_html(r),
        markets_html(Some(Seq::<MarketRow>::empty())) == "<tr><td colspan=\"5\" class=\"empty-note\">No markets found.</td></tr>"@,
        markets_html(None) == "<tr><td colspan=\"5\" class=\"empty-note\">Unable to load live data right now.</td></tr>"@,
{
    lemma_concat_rows_push(Seq::<MarketRow>::empty(), r, |x: MarketRow| market_row_html(x));
    assert(Seq::<MarketRow>::empty().push(r) =~= seq![r]);
    assert(concat_rows(Seq::<MarketRow>::empty(), |x: MarketRow| market_row_html(x)) + market_row_html(r) =~= market_row_html(r));
    lemma_concat_rows_push(v, r, |x: MarketRow| market_row_html(x));
}

/// Law: the stocks table has one row per entry, in order: a single entry's table
/// is its row, and appending an entry to a non-empty list appends its row; no
/// entries give the "No stocks found." note, and rows that could not be loaded the
/// "Unable to load live data right now." note.
pub proof fn stocks_table_law(v: Seq<StockRow>, r: StockRow)
    ensures
        stocks_html(Some(seq![r])) == stock_row_html(r),
        v.len() > 0 ==> stocks_html(Some(v.push(r))) == stocks_html(Some(v)) + stock_row_html(r),
        stocks_html(Some(Seq::<StockRow>::empty())) == "<tr><td colspan=\"3\" class=\"empty-note\">No stocks found.</td></tr>"@,
        stocks_html(None) == "<tr><td colspan=\"3\" class=\"empty-note\">Unable to load live data right now.</td></tr>"@,
{
    lemma_concat_rows_push(Seq::<StockRow>::empty(), r, |x: StockRow| stock_row_html(x));
    assert(Seq::<StockRow>::empty().push(r) =~= seq![r]);
    assert(concat_rows(Seq::<StockRow>::empty(), |x: StockRow| stock_row_html(x)) + stock_row_html(r) =~= stock_row_html(r));
    lemma_concat_rows_push(v, r, |x: StockRow| stock_row_html(x));
}

/// Law: the stablecoins table has one row per entry, in order: a single entry's table
/// is its row, and appending an entry to a non-empty list appends its row; no
/// entries give the "No stablecoins found." note, and rows that could not be loaded the
/// "Unable to load live data right now." note.
pub proof fn stablecoins_table_law(v: Seq<StablecoinRow>, r: StablecoinRow)
    ensures
        stablecoins_html(Some(seq![r])) == stablecoin_row_html(r),
        v.len() > 0 ==> stablecoins_html(Some(v.push(r))) == stablecoins_html(Some(v)) + stablecoin_row_html(r),
        stablecoins_html(Some(Seq::<StablecoinRow>::empty())) == "<tr><td colspan=\"2\" class=\"empty-note\">No stablecoins found.</td></tr>"@,
        stablecoins_html(None) == "<tr><td colspan=\"2\" class=\"empty-note\">Unable to load live data right now.</td></tr>"@,
{
    lemma_concat_rows_push(Seq::<StablecoinRow>::empty(), r, |x: StablecoinRow| stablecoin_row_html(x));
    assert(Seq::<StablecoinRow>::empty().push(r) =~= seq![r]);
    assert(concat_rows(Seq::<StablecoinRow>::empty(), |x: StablecoinRow| stablecoin_row_html(x)) + stablecoin_row_html(r) =~= stablecoin_row_html(r));
    lemma_concat_rows_push(v, r, |x: StablecoinRow| stablecoin_row_html(x));
}

pub open spec fn opt_vec_view<R>(rows: Option<Vec<R>>) -> Option<Seq<R>> {
    match rows {
        Some(v) => Some(v@),
        None => None,
    }
}

fn append_escaped_or_dash(out: &mut String, v: &Option<String>)
    ensures
        final(out)@ == old(out)@ + escaped_or_dash(*v),
{
    match v {
        Some(s) => {
            let e = escape(s.as_str());
            out.append(e.as_str());
        },
        None => crate::text::push_char(out, '\u{2014}'),
    }
}

fn market_row(r: &MarketRow) -> (s: String)
    ensures
        s@ == market_row_html(*r),
{
    let mut s = String::new();
    s.append("<tr><td><strong>");
    s.append(escape(r.name.as_str()).as_str());
    s.append("</strong></td><td>");
    append_escaped_or_dash(&mut s, &r.exchange);
    s.append("</td><td>");
    s.append(escape(r.currency.as_str()).as_str());
    s.append("</td><td>");
    append_escaped_or_dash(&mut s, &r.country_code);
    s.append("</td><td>");
    s.append(decimal_text(r.asset_count).as_str());
    s.append("</td></tr>");
    s
}

fn stock_row(r: &StockRow) -> (s: String)
    ensures
        s@ == stock_row_html(*r),
{
    let mut s = String::new();
    s.append("<tr><td class=\"symbol\">");
    s.append(escape(r.symbol.as_str()).as_str());
    s.append("</td><td>");
    s.append(escape(r.name.as_str()).as_str());
    s.append("</td><td><span class=\"type-tag type-");
    s.append(r.asset_type.as_str());
    s.append("\">");
    s.append(r.asset_type.as_str());
    s.append("</span></td></tr>");
    s
}

fn stablecoin_row(r: &StablecoinRow) -> (s: String)
    ensures
        s@ == stablecoin_row_html(*r),
{
    let mut s = String::new();
    s.append("<tr><td class=\"symbol\">");
    s.append(escape(r.symbol.as_str()).as_str());
    s.append("</td><td>");
    s.append(escape(r.name.as_str()).as_str());
    s.append("</td></tr>");
    s
}

/// The markets table's rows; `None` when they could not be loaded.
pub fn markets_rows(rows: &Option<Vec<MarketRow>>) -> (s: String)
    ensures
        s@ == markets_html(opt_vec_view(*rows)),
{
    match rows {
        None => String::from_str("<tr><td colspan=\"5\" class=\"empty-note\">Unable to load live data right now.</td></tr>"),
        Some(v) => {
            if v.len() == 0 {
                return String::from_str("<tr><td colspan=\"5\" class=\"empty-note\">No markets found.</td></tr>");
            }
            let mut out = String::new();
            let n = v.len();
            for i in 0..n
                invariant
                    n == v@.len(),
                    out@ == concat_rows(v@.take(i as int), |r: MarketRow| market_row_html(r)),
            {
                out.append(market_row(&v[i]).as_str());
                assert(v@.take(i + 1).drop_last() =~= v@.take(i as int));
            }
            assert(v@.take(n as int) =~= v@);
            out
        },
    }
}

/// The US stocks table's rows; `None` when they could not be loaded.
pub fn stock_rows(rows: &Option<Vec<StockRow>>) -> (s: String)
    ensures
        s@ == stocks_html(opt_vec_view(*rows)),
{
    match rows {
        None => String::from_str("<tr><td colspan=\"3\" class=\"empty-note\">Unable to load live data right now.</td></tr>"),
        Some(v) => {
            if v.len() == 0 {
                return String::from_str("<tr><td colspan=\"3\" class=\"empty-note\">No stocks found.</td></tr>");
            }
            let mut out = String::new();
            let n = v.len();
            for i in 0..n
                invariant
                    n == v@.len(),
                    out@ == concat_rows(v@.take(i as int), |r: StockRow| stock_row_html(r)),
            {
                out.append(stock_row(&v[i]).as_str());
                assert(v@.take(i + 1).drop_last() =~= v@.take(i as int));
            }
            assert(v@.take(n as int) =~= v@);
            out
        },
    }
}

/// The stablecoins table's rows; `None` when they could not be loaded.
pub fn stablecoin_rows(rows: &Option<Vec<StablecoinRow>>) -> (s: String)
    ensures
        s@ == stablecoins_html(opt_vec_view(*rows)),
{
    match rows {
        None => String::from_str("<tr><td colspan=\"2\" class=\"empty-note\">Unable to load live data right now.</td></tr>"),
        Some(v) => {
            if v.len() == 0 {
                return String::from_str("<tr><td colspan=\"2\" class=\"empty-note\">No stablecoins found.</td></tr>");
            }
            let mut out = String::new();
            let n = v.len();
            for i in 0..n
                invariant
                    n == v@.len(),
                    out@ == concat_rows(v@.take(i as int), |r: StablecoinRow| stablecoin_row_html(r)),
            {
                out.append(stablecoin_row(&v[i]).as_str());
                assert(v@.take(i + 1).drop_last() =~= v@.take(i as int));
            }
            assert(v@.take(n as int) =~= v@);
            out
        },
    }
}

} // verus!
