//! Small verified helpers for working with text as character sequences.

use vstd::prelude::*;

verus! {

/// `s` followed by the single character `c` (std's `String::push`).
#[verifier::external_body]
pub(crate) fn push_char(s: &mut String, c: char)
    ensures
        final(s)@ == old(s)@.push(c),
{
    s.push(c);
}

/// The characters of `s`, in order.
pub fn chars_of(s: &str) -> (r: Vec<char>)
    ensures
        r@ == s@,
{
    let mut out: Vec<char> = Vec::new();
    for c in it: s.chars()
        invariant
            out@ == it.seq().take(it.index() as int),
    {
        out.push(c);
    }
    out
}

/// Whether two string slices hold the same characters.
pub fn str_eq(a: &str, b: &str) -> (r: bool)
    ensures
        r == (a@ == b@),
{
    let x = chars_of(a);
    let y = chars_of(b);
    if x.len() != y.len() {
        return false;
    }
    let n = x.len();
    for i in 0..n
        invariant
            n == x@.len(),
            n == y@.len(),
            x@ == a@,
            y@ == b@,
            forall|k: int| 0 <= k < i ==> x@[k] == y@[k],
    {
        if x[i] != y[i] {
            assert(x@[i as int] != y@[i as int]);
            return false;
        }
    }
    assert(x@ =~= y@);
    true
}

/// A `String` holding exactly the characters of `v`.
pub fn string_from_chars(v: &Vec<char>) -> (r: String)
    ensures
        r@ == v@,
{
    let mut s = String::new();
    let n = v.len();
    for i in 0..n
        invariant
            n == v@.len(),
            s@ == v@.take(i as int),
    {
        push_char(&mut s, v[i]);
        assert(v@.take(i + 1) =~= v@.take(i as int).push(v@[i as int]));
    }
    assert(v@.take(n as int) =~= v@);
    s
}


/// The decimal digit character of a value below 10.
pub open spec fn digit_char(d: int) -> char {
    (48 + d) as char
}

/// The decimal digits of `n`, most significant first, without leading zeros.
pub open spec fn decimal_digits(n: nat) -> Seq<char>
    decreases n,
{
    if n < 10 {
        seq![digit_char(n as int)]
    } else {
        decimal_digits(n / 10).push(digit_char((n % 10) as int))
    }
}

/// How an integer is written in decimal: a `-` before the digits of a negative one.
pub open spec fn decimal(i: int) -> Seq<char> {
    if i < 0 {
        seq!['-'] + decimal_digits((-i) as nat)
    } else {
        decimal_digits(i as nat)
    }
}

/// The value of a string of decimal digits, most significant first.
pub open spec fn digits_value(s: Seq<char>) -> int
    decreases s.len(),
{
    if s.len() == 0 {
        0
    } else {
        digits_value(s.drop_last()) * 10 + (s.last() as int - 48)
    }
}

/// Every character of `s` is a decimal digit.
pub open spec fn all_digits(s: Seq<char>) -> bool {
    forall|i: int| 0 <= i < s.len() ==> '0' <= #[trigger] s[i] <= '9'
}

proof fn lemma_decimal_digits(k: nat)
    ensures
        decimal_digits(k).len() > 0,
        all_digits(decimal_digits(k)),
        digits_value(decimal_digits(k)) == k,
        k > 0 ==> decimal_digits(k)[0] != '0',
    decreases k,
{
    let d = decimal_digits(k);
    if k < 10 {
        assert(d.drop_last() =~= Seq::<char>::empty());
        assert(digits_value(d.drop_last()) == 0);
        assert(d.last() as int == 48 + k);
    } else {
        lemma_decimal_digits(k / 10);
        let p = decimal_digits(k / 10);
        assert(d.drop_last() =~= p);
        assert(d.last() as int == 48 + k % 10);
        assert(k == (k / 10) * 10 + k % 10);
        assert(d[0] == p[0]);
        assert forall|i: int| 0 <= i < d.len() implies '0' <= #[trigger] d[i] <= '9' by {
            if i < p.len() {
                assert(d[i] == p[i]);
            }
        }
    }
}

/// Law: the decimal text of `i` reads back as `i`: digits only, with no leading
/// zero (but for `0` itself), and a `-` in front of a negative number's digits.
pub proof fn decimal_reads_back(i: int)
    ensures
        i >= 0 ==> all_digits(decimal(i)) && decimal(i).len() > 0 && digits_value(decimal(i)) == i && (decimal(i)[0]
            == '0' ==> decimal(i).len() == 1),
        i < 0 ==> decimal(i)[0] == '-' && decimal(i).len() > 1 && all_digits(decimal(i).skip(1)) && digits_value(
            decimal(i).skip(1),
        ) == -i && decimal(i)[1] != '0',
{
    if i >= 0 {
        lemma_decimal_digits(i as nat);
    } else {
        lemma_decimal_digits((-i) as nat);
        assert(decimal(i).skip(1) =~= decimal_digits((-i) as nat));
        assert(decimal(i)[1] == decimal_digits((-i) as nat)[0]);
    }
}

fn push_digits(s: &mut String, n: u64)
    ensures
        final(s)@ == old(s)@ + decimal_digits(n as nat),
    decreases n,
{
    if n < 10 {
        push_char(s, ((n as u8) + 48) as char);
    } else {
        push_digits(s, n / 10);
        push_char(s, (((n % 10) as u8) + 48) as char);
        assert(decimal_digits(n as nat) == decimal_digits((n / 10) as nat).push(digit_char((n % 10) as int)));
    }
}

/// `n` written in decimal, as `format!("{}", n)` writes an `i64`.
pub fn decimal_text(n: i64) -> (r: String)
    ensures
        r@ == decimal(n as int),
{
    let mut s = String::new();
    if n < 0 {
        push_char(&mut s, '-');
        let magnitude: i128 = -(n as i128);
        push_digits(&mut s, magnitude as u64);
    } else {
        push_digits(&mut s, n as u64);
    }
    s
}

/// `s` with every non-overlapping occurrence of `pat`, scanning from the left,
/// replaced by `rep` (what `str::replace` does for a non-empty pattern).
pub open spec fn replace_all(s: Seq<char>, pat: Seq<char>, rep: Seq<char>) -> Seq<char>
    decreases s.len(),
{
    if pat.len() == 0 || s.len() < pat.len() {
        s
    } else if s.take(pat.len() as int) == pat {
        rep + replace_all(s.skip(pat.len() as int), pat, rep)
    } else {
        seq![s[0]] + replace_all(s.skip(1), pat, rep)
    }
}

fn matches_at(s: &Vec<char>, i: usize, pat: &Vec<char>) -> (r: bool)
    requires
        i + pat@.len() <= s@.len(),
    ensures
        r == (s@.subrange(i as int, i + pat@.len()) == pat@),
{
    let m = pat.len();
    let mut j: usize = 0;
    while j < m
        invariant
            i + m <= s.len(),
            m == pat@.len(),
            j <= m,
            forall|k: int| 0 <= k < j ==> s@[i + k] == pat@[k],
        decreases m - j,
    {
        if s[i + j] != pat[j] {
            assert(s@.subrange(i as int, i + m)[j as int] != pat@[j as int]);
            return false;
        }
        j = j + 1;
    }
    assert(s@.subrange(i as int, i + m) =~= pat@);
    true
}

/// `s` with each occurrence of the non-empty `pat` replaced by `rep`.
pub fn replace_chars(s: &Vec<char>, pat: &Vec<char>, rep: &Vec<char>) -> (r: Vec<char>)
    requires
        pat@.len() > 0,
    ensures
        r@ == replace_all(s@, pat@, rep@),
{
    let n = s.len();
    let m = pat.len();
    let mut out: Vec<char> = Vec::new();
    let mut i: usize = 0;
    assert(s@.skip(0) =~= s@);
    while i < n
        invariant
            n == s@.len(),
            m == pat@.len(),
            m > 0,
            i <= n,
            replace_all(s@, pat@, rep@) == out@ + replace_all(s@.skip(i as int), pat@, rep@),
        decreases n - i,
    {
        let ghost rest = s@.skip(i as int);
        if m <= n - i && matches_at(s, i, pat) {
            assert(rest.take(m as int) =~= s@.subrange(i as int, i + m));
            assert(rest.skip(m as int) =~= s@.skip(i + m));
            let ghost before = out@;
            let mut k: usize = 0;
            while k < rep.len()
                invariant
                    out@ == before + rep@.take(k as int),
                    k <= rep@.len(),
                decreases rep@.len() - k,
            {
                out.push(rep[k]);
                k = k + 1;
                assert(out@ =~= before + rep@.take(k as int));
            }
            assert(rep@.take(rep@.len() as int) =~= rep@);
            assert(out@ + replace_all(s@.skip(i + m), pat@, rep@) =~= before + (rep@ + replace_all(
                rest.skip(m as int),
                pat@,
                rep@,
            )));
            i = i + m;
        } else {
            if m <= n - i {
                assert(rest.take(m as int) =~= s@.subrange(i as int, i + m));
            }
            assert(rest.skip(1) =~= s@.skip(i + 1));
            assert(rest[0] == s@[i as int]);
            let ghost before = out@;
            out.push(s[i]);
            if m > n - i {
                assert(replace_all(rest, pat@, rep@) == rest);
                assert(replace_all(rest.skip(1), pat@, rep@) == rest.skip(1));
                assert(rest =~= seq![rest[0]] + rest.skip(1));
            }
            assert(out@ + replace_all(s@.skip(i + 1), pat@, rep@) =~= before + (seq![rest[0]] + replace_all(
                rest.skip(1),
                pat@,
                rep@,
            )));
            i = i + 1;
        }
    }
    assert(s@.skip(n as int) =~= Seq::<char>::empty());
    assert(out@ + Seq::<char>::empty() =~= out@);
    out
}

/// `s` with each occurrence of the non-empty `pat` replaced by `rep`.
pub fn replace_str(s: &str, pat: &str, rep: &str) -> (r: String)
    requires
        pat@.len() > 0,
    ensures
        r@ == replace_all(s@, pat@, rep@),
{
    let out = replace_chars(&chars_of(s), &chars_of(pat), &chars_of(rep));
    string_from_chars(&out)
}

/// `chunk` holds no start of `pat`: wherever it has `pat`'s first character, the
/// next character is inside `chunk` and differs from `pat`'s second.
pub open spec fn avoids(chunk: Seq<char>, pat: Seq<char>) -> bool {
    forall|i: int|
        0 <= i < chunk.len() ==> #[trigger] chunk[i] != pat[0] || (pat.len() >= 2 && i + 1 < chunk.len() && chunk[i
            + 1] != pat[1])
}

proof fn lemma_replace_step(x: Seq<char>, pat: Seq<char>, rep: Seq<char>)
    requires
        pat.len() > 0,
        x.len() >= 1,
        !(x.len() >= pat.len() && x.take(pat.len() as int) == pat),
    ensures
        replace_all(x, pat, rep) == seq![x[0]] + replace_all(x.skip(1), pat, rep),
{
    if x.len() < pat.len() {
        assert(replace_all(x.skip(1), pat, rep) == x.skip(1));
        assert(x =~= seq![x[0]] + x.skip(1));
    }
}

/// Replacing in `chunk + y`, where `chunk` holds no start of `pat`, leaves `chunk`
/// as it is.
pub proof fn lemma_replace_passes(chunk: Seq<char>, y: Seq<char>, pat: Seq<char>, rep: Seq<char>)
    requires
        pat.len() > 0,
        avoids(chunk, pat),
    ensures
        replace_all(chunk + y, pat, rep) == chunk + replace_all(y, pat, rep),
    decreases chunk.len(),
{
    if chunk.len() == 0 {
        assert(chunk + y =~= y);
        assert(chunk + replace_all(y, pat, rep) =~= replace_all(y, pat, rep));
    } else {
        let x = chunk + y;
        assert(x[0] == chunk[0]);
        if x.len() >= pat.len() && x.take(pat.len() as int) == pat {
            assert(x.take(pat.len() as int)[0] == pat[0]);
            assert(chunk[0] != pat[0] || (pat.len() >= 2 && 1 < chunk.len() && chunk[1] != pat[1]));
            assert(x.take(pat.len() as int)[1] == pat[1]);
            assert(x[1] == chunk[1]);
        }
        lemma_replace_step(x, pat, rep);
        let rest = chunk.skip(1);
        assert forall|i: int| 0 <= i < rest.len() implies #[trigger] rest[i] != pat[0] || (pat.len() >= 2 && i + 1
            < rest.len() && rest[i + 1] != pat[1]) by {
            assert(rest[i] == chunk[i + 1]);
            assert(chunk[i + 1] != pat[0] || (pat.len() >= 2 && i + 2 < chunk.len() && chunk[i + 2] != pat[1]));
            if i + 1 < rest.len() {
                assert(rest[i + 1] == chunk[i + 2]);
            }
        }
        lemma_replace_passes(rest, y, pat, rep);
        assert(x.skip(1) =~= rest + y);
        assert(seq![x[0]] + (rest + replace_all(y, pat, rep)) =~= chunk + replace_all(y, pat, rep));
    }
}

/// Replacing in `pat + y` replaces the leading `pat`.
pub proof fn lemma_replace_leading(y: Seq<char>, pat: Seq<char>, rep: Seq<char>)
    requires
        pat.len() > 0,
    ensures
        replace_all(pat + y, pat, rep) == rep + replace_all(y, pat, rep),
{
    let x = pat + y;
    assert(x.take(pat.len() as int) =~= pat);
    assert(x.skip(pat.len() as int) =~= y);
}

} // verus!
