//! Verified text-scanning primitives used by the envelope decoder and the
//! opaque payload extractor: first-occurrence substring search, XML-style
//! element and attribute location, and decimal parsing.
//!
//! All scanning works over a `Vec<char>` copy of the response text so that
//! positions are character indices; extracted values are produced with
//! `substring_char` on the source `&str`, so they are verbatim subranges
//! of the input.

use vstd::prelude::*;

verus! {

/// `pat` occurs in `s` starting exactly at position `i`.
pub open spec fn match_at(s: Seq<char>, pat: Seq<char>, i: int) -> bool {
    0 <= i && i + pat.len() <= s.len() && s.subrange(i, i + pat.len() as int) == pat
}

/// Position of the first occurrence of `pat` in `s` at or after `from`,
/// if any. An empty pattern never counts as found.
pub open spec fn find_from(s: Seq<char>, pat: Seq<char>, from: int) -> Option<int>
    decreases s.len() - from,
{
    if pat.len() == 0 || from < 0 || from + pat.len() > s.len() {
        None
    } else if match_at(s, pat, from) {
        Some(from)
    } else {
        find_from(s, pat, from + 1)
    }
}

/// A successful search yields a real match at or after the start position.
pub proof fn lemma_find_from_some(s: Seq<char>, pat: Seq<char>, from: int, i: int)
    requires
        find_from(s, pat, from) == Some(i),
    ensures
        from <= i,
        match_at(s, pat, i),
        i + pat.len() <= s.len(),
    decreases s.len() - from,
{
    if pat.len() == 0 || from < 0 || from + pat.len() > s.len() {
    } else if match_at(s, pat, from) {
    } else {
        lemma_find_from_some(s, pat, from + 1, i);
    }
}

/// Search never reports a position before an earlier match: every position
/// in `[from, i)` is a non-match when `find_from` answers `Some(i)`.
pub proof fn lemma_find_from_first(s: Seq<char>, pat: Seq<char>, from: int, i: int, j: int)
    requires
        find_from(s, pat, from) == Some(i),
        from <= j < i,
    ensures
        !match_at(s, pat, j),
    decreases s.len() - from,
{
    if pat.len() == 0 || from < 0 || from + pat.len() > s.len() {
    } else if match_at(s, pat, from) {
    } else {
        if j > from {
            lemma_find_from_first(s, pat, from + 1, i, j);
        }
    }
}

/// Converts an executable search result to the spec-level one.
pub open spec fn opt_pos(r: Option<usize>) -> Option<int> {
    match r {
        Some(i) => Some(i as int),
        None => None,
    }
}

/// Whether `pat` occurs in `hay` starting at `i` (executable form of
/// `match_at`).
pub fn match_here(hay: &Vec<char>, pat: &Vec<char>, i: usize) -> (r: bool)
    requires
        i + pat@.len() <= hay@.len(),
    ensures
        r == match_at(hay@, pat@, i as int),
{
    let n = hay.len();
    let m = pat.len();
    let mut k: usize = 0;
    while k < m
        invariant
            k <= m,
            m == pat@.len(),
            n == hay@.len(),
            i + m <= n,
            forall|j: int| 0 <= j < k ==> hay@[i + j] == pat@[j],
        decreases m - k,
    {
        if hay[i + k] != pat[k] {
            proof {
                assert(!match_at(hay@, pat@, i as int)) by {
                    if match_at(hay@, pat@, i as int) {
                        assert(hay@.subrange(i as int, i + m as int)[k as int] == pat@[k as int]);
                    }
                }
            }
            return false;
        }
        k += 1;
    }
    proof {
        assert(hay@.subrange(i as int, i + m as int) =~= pat@);
    }
    true
}

/// First occurrence of `pat` in `hay` at or after `from`.
pub fn find_in(hay: &Vec<char>, pat: &Vec<char>, from: usize) -> (r: Option<usize>)
    ensures
        opt_pos(r) == find_from(hay@, pat@, from as int),
{
    let n = hay.len();
    let m = pat.len();
    if m == 0 || m > n || from > n - m {
        proof {
            assert(find_from(hay@, pat@, from as int) is None);
        }
        return None;
    }
    let mut i: usize = from;
    while i <= n - m
        invariant
            1 <= m <= n,
            n == hay@.len(),
            m == pat@.len(),
            from <= i,
            i <= n - m + 1,
            find_from(hay@, pat@, from as int) == find_from(hay@, pat@, i as int),
        decreases n - i,
    {
        if match_here(hay, pat, i) {
            return Some(i);
        }
        proof {
            assert(find_from(hay@, pat@, i as int) == find_from(hay@, pat@, i + 1));
        }
        i += 1;
    }
    proof {
        assert(find_from(hay@, pat@, i as int) is None);
    }
    None
}

/// Copies a string into its sequence of characters, so that scanning can
/// index positions directly.
pub fn to_chars(s: &str) -> (v: Vec<char>)
    ensures
        v@ == s@,
{
    let n = s.unicode_len();
    let mut v: Vec<char> = Vec::new();
    let mut i: usize = 0;
    while i < n
        invariant
            i <= n,
            n == s@.len(),
            v@ == s@.subrange(0, i as int),
        decreases n - i,
    {
        v.push(s.get_char(i));
        proof {
            assert(v@ =~= s@.subrange(0, i + 1));
        }
        i += 1;
    }
    proof {
        assert(v@ =~= s@);
    }
    v
}

/// Inner texts of successive `open ... close` tag pairs, scanning left to
/// right from `from`: each pair is the first `open` occurrence, then the
/// first `close` occurrence after it (non-greedy), and the scan resumes
/// after the closing tag (non-overlapping).
pub open spec fn span_texts_from(
    s: Seq<char>,
    open: Seq<char>,
    close: Seq<char>,
    from: int,
) -> Seq<Seq<char>>
    decreases s.len() - from,
    via span_texts_from_dec
{
    if open.len() == 0 || close.len() == 0 || from < 0 {
        Seq::empty()
    } else {
        match find_from(s, open, from) {
            None => Seq::empty(),
            Some(i) => match find_from(s, close, i + open.len()) {
                None => Seq::empty(),
                Some(j) => Seq::empty().push(s.subrange(i + open.len(), j)) + span_texts_from(
                    s,
                    open,
                    close,
                    j + close.len(),
                ),
            },
        }
    }
}

#[via_fn]
proof fn span_texts_from_dec(s: Seq<char>, open: Seq<char>, close: Seq<char>, from: int) {
    if !(open.len() == 0 || close.len() == 0 || from < 0) {
        if let Some(i) = find_from(s, open, from) {
            lemma_find_from_some(s, open, from, i);
            if let Some(j) = find_from(s, close, i + open.len() as int) {
                lemma_find_from_some(s, close, i + open.len() as int, j);
            }
        }
    }
}

/// The texts of all `open ... close` pairs in the whole of `s`.
pub open spec fn span_texts(s: Seq<char>, open: Seq<char>, close: Seq<char>) -> Seq<Seq<char>> {
    span_texts_from(s, open, close, 0)
}

/// The scan is non-greedy: a span runs to the first closing tag after its
/// opening tag, so the closing tag never occurs anywhere strictly inside
/// the span's inner text.
pub proof fn lemma_span_is_non_greedy(
    s: Seq<char>,
    open: Seq<char>,
    close: Seq<char>,
    from: int,
    i: int,
    j: int,
    k: int,
)
    requires
        find_from(s, open, from) == Some(i),
        find_from(s, close, i + open.len()) == Some(j),
        i + open.len() <= k < j,
    ensures
        !match_at(s, close, k),
{
    lemma_find_from_first(s, close, i + open.len() as int, j, k);
}

/// How many `open ... close` tag pairs occur in `s` at or after `from`,
/// under the same non-greedy, non-overlapping scan.
pub open spec fn span_count_from(s: Seq<char>, open: Seq<char>, close: Seq<char>, from: int) -> nat
    decreases s.len() - from,
    via span_count_from_dec
{
    if open.len() == 0 || close.len() == 0 || from < 0 {
        0
    } else {
        match find_from(s, open, from) {
            None => 0,
            Some(i) => match find_from(s, close, i + open.len()) {
                None => 0,
                Some(j) => 1 + span_count_from(s, open, close, j + close.len()),
            },
        }
    }
}

#[via_fn]
proof fn span_count_from_dec(s: Seq<char>, open: Seq<char>, close: Seq<char>, from: int) {
    if !(open.len() == 0 || close.len() == 0 || from < 0) {
        if let Some(i) = find_from(s, open, from) {
            lemma_find_from_some(s, open, from, i);
            if let Some(j) = find_from(s, close, i + open.len() as int) {
                lemma_find_from_some(s, close, i + open.len() as int, j);
            }
        }
    }
}

/// One text is extracted per tag pair: the scan yields exactly as many
/// spans as there are `open ... close` pairs in the text.
pub proof fn lemma_span_texts_count(s: Seq<char>, open: Seq<char>, close: Seq<char>, from: int)
    ensures
        span_texts_from(s, open, close, from).len() == span_count_from(s, open, close, from),
    decreases s.len() - from,
{
    if !(open.len() == 0 || close.len() == 0 || from < 0) {
        if let Some(i) = find_from(s, open, from) {
            lemma_find_from_some(s, open, from, i);
            if let Some(j) = find_from(s, close, i + open.len() as int) {
                lemma_find_from_some(s, close, i + open.len() as int, j);
                lemma_span_texts_count(s, open, close, j + close.len() as int);
            }
        }
    }
}

/// Collects the verbatim inner text of every `open ... close` pair in
/// `xml`, in document order. `hay` must be the character sequence of `xml`.
pub fn extract_spans(xml: &str, hay: &Vec<char>, open: &Vec<char>, close: &Vec<char>) -> (r: Vec<
    String,
>)
    requires
        xml@ == hay@,
        open@.len() > 0,
        close@.len() > 0,
    ensures
        r.deep_view() == span_texts(xml@, open@, close@),
{
    let ghost full = span_texts(xml@, open@, close@);
    let n = hay.len();
    let mut r: Vec<String> = Vec::new();
    let mut pos: usize = 0;
    loop
        invariant
            xml@ == hay@,
            n == hay@.len(),
            open@.len() > 0,
            close@.len() > 0,
            pos <= n,
            r.deep_view() + span_texts_from(hay@, open@, close@, pos as int) == full,
        ensures
            span_texts_from(hay@, open@, close@, pos as int) =~= Seq::<Seq<char>>::empty(),
            r.deep_view() + span_texts_from(hay@, open@, close@, pos as int) == full,
        decreases n - pos,
    {
        let oi = match find_in(hay, open, pos) {
            Some(oi) => oi,
            None => {
                break ;
            },
        };
        proof {
            lemma_find_from_some(hay@, open@, pos as int, oi as int);
        }
        let content_start = oi + open.len();
        let ci = match find_in(hay, close, content_start) {
            Some(ci) => ci,
            None => {
                break ;
            },
        };
        proof {
            lemma_find_from_some(hay@, close@, content_start as int, ci as int);
        }
        let ghost prev = r.deep_view();
        let ghost t = hay@.subrange(content_start as int, ci as int);
        let text = xml.substring_char(content_start, ci);
        r.push(String::from_str(text));
        proof {
            assert(r.deep_view() =~~= prev.push(t));
            assert(span_texts_from(hay@, open@, close@, pos as int) == Seq::<Seq<char>>::empty().push(t)
                + span_texts_from(hay@, open@, close@, ci + close@.len()));
            assert(prev.push(t) + span_texts_from(hay@, open@, close@, ci + close@.len()) =~= prev
                + span_texts_from(hay@, open@, close@, pos as int));
        }
        pos = ci + close.len();
    }
    proof {
        assert(r.deep_view() =~~= full);
    }
    r
}

/// The text that opens an element named `name` (attributes may follow).
pub open spec fn open_tag(name: Seq<char>) -> Seq<char> {
    seq!['<'] + name
}

/// The text that closes an element named `name`.
pub open spec fn close_tag(name: Seq<char>) -> Seq<char> {
    seq!['<', '/'] + name + seq!['>']
}

/// Positions of the first element named `name` at or after `from`:
/// the `<` of its opening tag, the `>` ending the opening tag, and the
/// start of its closing tag.
pub open spec fn find_elem(s: Seq<char>, name: Seq<char>, from: int) -> Option<(int, int, int)> {
    match find_from(s, open_tag(name), from) {
        None => None,
        Some(i) => match find_from(s, seq!['>'], i + 1 + name.len()) {
            None => None,
            Some(g) => match find_from(s, close_tag(name), g + 1) {
                None => None,
                Some(e) => Some((i, g, e)),
            },
        },
    }
}

/// Inner text of the first element named `name` at or after `from`.
pub open spec fn elem_content(s: Seq<char>, name: Seq<char>, from: int) -> Option<Seq<char>> {
    match find_elem(s, name, from) {
        None => None,
        Some((i, g, e)) => Some(s.subrange(g + 1, e)),
    }
}

/// Converts an executable element position to the spec-level one.
pub open spec fn opt_elem_pos(r: Option<(usize, usize, usize)>) -> Option<(int, int, int)> {
    match r {
        Some((i, g, e)) => Some((i as int, g as int, e as int)),
        None => None,
    }
}

/// Appends the characters of `src` to `v`.
fn append_chars(v: &mut Vec<char>, src: &Vec<char>)
    ensures
        final(v)@ == old(v)@ + src@,
{
    let m = src.len();
    let mut k: usize = 0;
    while k < m
        invariant
            k <= m,
            m == src@.len(),
            v@ == old(v)@ + src@.subrange(0, k as int),
        decreases m - k,
    {
        v.push(src[k]);
        proof {
            assert(old(v)@ + src@.subrange(0, k as int) + seq![src@[k as int]] =~= old(v)@
                + src@.subrange(0, k + 1));
        }
        k += 1;
    }
    proof {
        assert(old(v)@ + src@.subrange(0, m as int) =~= old(v)@ + src@);
    }
}

/// Builds the opening-tag search pattern for `name`.
fn open_tag_vec(name: &Vec<char>) -> (r: Vec<char>)
    ensures
        r@ == open_tag(name@),
{
    let mut v: Vec<char> = Vec::new();
    v.push('<');
    append_chars(&mut v, name);
    proof {
        assert(v@ =~= open_tag(name@));
    }
    v
}

/// Builds the closing-tag search pattern for `name`.
fn close_tag_vec(name: &Vec<char>) -> (r: Vec<char>)
    ensures
        r@ == close_tag(name@),
{
    let mut v: Vec<char> = Vec::new();
    v.push('<');
    v.push('/');
    append_chars(&mut v, name);
    v.push('>');
    proof {
        assert(v@ =~= close_tag(name@));
    }
    v
}

/// Locates the first element named `name` at or after `from`, returning the
/// same three positions as the specification `find_elem`.
pub fn find_elem_in(hay: &Vec<char>, name: &Vec<char>, from: usize) -> (r: Option<
    (usize, usize, usize),
>)
    requires
        name@.len() > 0,
    ensures
        opt_elem_pos(r) == find_elem(hay@, name@, from as int),
        r matches Some(p) ==> p.0 < p.1 && p.1 < p.2 && p.2 + name@.len() + 3 <= hay@.len()
            && p.0 + 1 + name@.len() <= p.1,
{
    let n = hay.len();
    let openv = open_tag_vec(name);
    let i = match find_in(hay, &openv, from) {
        Some(i) => i,
        None => {
            return None;
        },
    };
    proof {
        lemma_find_from_some(hay@, open_tag(name@), from as int, i as int);
    }
    let after_open = i + 1 + name.len();
    let mut gtv: Vec<char> = Vec::new();
    gtv.push('>');
    proof {
        assert(gtv@ =~= seq!['>']);
    }
    let g = match find_in(hay, &gtv, after_open) {
        Some(g) => g,
        None => {
            return None;
        },
    };
    proof {
        lemma_find_from_some(hay@, seq!['>'], after_open as int, g as int);
    }
    let closev = close_tag_vec(name);
    let e = match find_in(hay, &closev, g + 1) {
        Some(e) => e,
        None => {
            return None;
        },
    };
    proof {
        lemma_find_from_some(hay@, close_tag(name@), g + 1 as int, e as int);
    }
    Some((i, g, e))
}

/// The text that introduces the value of attribute `name`.
pub open spec fn attr_key(name: Seq<char>) -> Seq<char> {
    name + seq!['=', '"']
}

/// Range of the value of attribute `name` within `[a, b)` of `s` (the
/// attribute region of an opening tag): the text between `name="` and the
/// next `"`, provided both fall inside the region.
pub open spec fn attr_range(s: Seq<char>, name: Seq<char>, a: int, b: int) -> Option<(int, int)> {
    match find_from(s, attr_key(name), a) {
        None => None,
        Some(p) => if p + name.len() + 2 > b {
            None
        } else {
            match find_from(s, seq!['"'], p + name.len() + 2) {
                None => None,
                Some(q) => if q <= b {
                    Some((p + name.len() + 2, q))
                } else {
                    None
                },
            }
        },
    }
}

/// Value of attribute `name` within `[a, b)` of `s`.
pub open spec fn attr_value(s: Seq<char>, name: Seq<char>, a: int, b: int) -> Option<Seq<char>> {
    match attr_range(s, name, a, b) {
        None => None,
        Some((u, v)) => Some(s.subrange(u, v)),
    }
}

/// Converts an executable range to the spec-level one.
pub open spec fn opt_range(r: Option<(usize, usize)>) -> Option<(int, int)> {
    match r {
        Some((u, v)) => Some((u as int, v as int)),
        None => None,
    }
}

/// Locates the value of attribute `name` within `[a, b)` of `hay`.
pub fn attr_range_in(hay: &Vec<char>, name: &Vec<char>, a: usize, b: usize) -> (r: Option<
    (usize, usize),
>)
    requires
        name@.len() > 0,
        b <= hay@.len(),
    ensures
        opt_range(r) == attr_range(hay@, name@, a as int, b as int),
        r matches Some(p) ==> p.0 <= p.1 && p.1 <= b,
{
    let n = hay.len();
    let mut keyv: Vec<char> = Vec::new();
    append_chars(&mut keyv, name);
    keyv.push('=');
    keyv.push('"');
    proof {
        assert(keyv@ =~= attr_key(name@));
    }
    let p = match find_in(hay, &keyv, a) {
        Some(p) => p,
        None => {
            return None;
        },
    };
    proof {
        lemma_find_from_some(hay@, attr_key(name@), a as int, p as int);
    }
    let vstart = p + name.len() + 2;
    if vstart > b {
        return None;
    }
    let mut qv: Vec<char> = Vec::new();
    qv.push('"');
    proof {
        assert(qv@ =~= seq!['"']);
    }
    let q = match find_in(hay, &qv, vstart) {
        Some(q) => q,
        None => {
            return None;
        },
    };
    proof {
        lemma_find_from_some(hay@, seq!['"'], vstart as int, q as int);
    }
    if q <= b {
        Some((vstart, q))
    } else {
        None
    }
}

/// Converts an executable extracted text to the spec-level one.
pub open spec fn opt_text(r: Option<String>) -> Option<Seq<char>> {
    match r {
        Some(t) => Some(t@),
        None => None,
    }
}

/// Inner text of the first element named `name` in `xml`, as a fresh
/// string. `hay` must be the character sequence of `xml`.
pub fn elem_content_str(xml: &str, hay: &Vec<char>, name: &Vec<char>) -> (r: Option<String>)
    requires
        xml@ == hay@,
        name@.len() > 0,
    ensures
        opt_text(r) == elem_content(xml@, name@, 0),
{
    match find_elem_in(hay, name, 0) {
        None => None,
        Some((i, g, e)) => Some(String::from_str(xml.substring_char(g + 1, e))),
    }
}

/// Value of attribute `name` in `[a, b)` of `xml`, as a fresh string.
pub fn attr_value_str(xml: &str, hay: &Vec<char>, name: &Vec<char>, a: usize, b: usize) -> (r:
    Option<String>)
    requires
        xml@ == hay@,
        name@.len() > 0,
        b <= hay@.len(),
    ensures
        opt_text(r) == attr_value(xml@, name@, a as int, b as int),
{
    match attr_range_in(hay, name, a, b) {
        None => None,
        Some((u, v)) => Some(String::from_str(xml.substring_char(u, v))),
    }
}

/// `c` is a decimal digit.
pub open spec fn is_digit(c: char) -> bool {
    '0' as u32 <= c as u32 && c as u32 <= '9' as u32
}

/// Every character of `s` is a decimal digit.
pub open spec fn all_digits(s: Seq<char>) -> bool {
    forall|i: int| 0 <= i < s.len() ==> is_digit(#[trigger] s[i])
}

/// Numeric value of a text of decimal digits, most significant first.
pub open spec fn digits_val(s: Seq<char>) -> int
    decreases s.len(),
{
    if s.len() == 0 {
        0
    } else {
        digits_val(s.drop_last()) * 10 + (s.last() as u32 - '0' as u32)
    }
}

/// The value of a digit text is never negative.
pub proof fn lemma_digits_val_nonneg(s: Seq<char>)
    requires
        all_digits(s),
    ensures
        digits_val(s) >= 0,
    decreases s.len(),
{
    if s.len() > 0 {
        assert(all_digits(s.drop_last()));
        lemma_digits_val_nonneg(s.drop_last());
    }
}

/// Appending digits never decreases the value: the whole text is worth at
/// least any of its prefixes.
pub proof fn lemma_digits_val_prefix(s: Seq<char>, k: int)
    requires
        all_digits(s),
        0 <= k <= s.len(),
    ensures
        digits_val(s) >= digits_val(s.subrange(0, k)),
    decreases s.len() - k,
{
    if k < s.len() {
        assert(s.subrange(0, k + 1).drop_last() =~= s.subrange(0, k));
        assert(all_digits(s.subrange(0, k)));
        lemma_digits_val_nonneg(s.subrange(0, k));
        assert(digits_val(s.subrange(0, k + 1)) == digits_val(s.subrange(0, k)) * 10 + (s[k] as u32
            - '0' as u32));
        lemma_digits_val_prefix(s, k + 1);
    } else {
        assert(s.subrange(0, k) =~= s);
    }
}

/// Reads `[a, b)` of `hay` as a decimal `u64`: defined exactly when the
/// range is non-empty, all digits, and the value fits.
pub fn parse_u64_range(hay: &Vec<char>, a: usize, b: usize) -> (r: Option<u64>)
    requires
        a <= b <= hay@.len(),
    ensures
        match r {
            Some(v) => a < b && all_digits(hay@.subrange(a as int, b as int)) && v == digits_val(
                hay@.subrange(a as int, b as int),
            ),
            None => a == b || !all_digits(hay@.subrange(a as int, b as int)) || digits_val(
                hay@.subrange(a as int, b as int),
            ) > u64::MAX,
        },
{
    let ghost whole = hay@.subrange(a as int, b as int);
    if a == b {
        return None;
    }
    let n = hay.len();
    let mut v: u64 = 0;
    let mut k: usize = a;
    while k < b
        invariant
            a <= k <= b <= n,
            n == hay@.len(),
            whole == hay@.subrange(a as int, b as int),
            all_digits(hay@.subrange(a as int, k as int)),
            v == digits_val(hay@.subrange(a as int, k as int)),
        decreases b - k,
    {
        let c = hay[k];
        let cu = c as u32;
        let lo = '0' as u32;
        let hi = '9' as u32;
        if cu < lo || cu > hi {
            proof {
                assert(!is_digit(whole[k - a]));
            }
            return None;
        }
        let d = (cu - lo) as u64;
        let ghost prefix1 = hay@.subrange(a as int, k + 1);
        proof {
            assert(prefix1.drop_last() =~= hay@.subrange(a as int, k as int));
            assert(all_digits(prefix1));
        }
        let v10 = match v.checked_mul(10) {
            Some(x) => x,
            None => {
                proof {
                    overflow_means_too_big(hay@, a as int, b as int, k as int, v as int, d as int);
                }
                return None;
            },
        };
        let vnew = match v10.checked_add(d) {
            Some(x) => x,
            None => {
                proof {
                    overflow_means_too_big(hay@, a as int, b as int, k as int, v as int, d as int);
                }
                return None;
            },
        };
        v = vnew;
        k += 1;
    }
    proof {
        assert(hay@.subrange(a as int, k as int) =~= whole);
    }
    Some(v)
}

/// If one more digit would push the accumulated value past `u64::MAX`, the
/// value of the whole digit range does not fit either.
proof fn overflow_means_too_big(s: Seq<char>, a: int, b: int, k: int, v: int, d: int)
    requires
        0 <= a <= k < b <= s.len(),
        all_digits(s.subrange(a, k)),
        v == digits_val(s.subrange(a, k)),
        is_digit(s[k]),
        d == s[k] as u32 - '0' as u32,
        v * 10 + d > u64::MAX,
    ensures
        !all_digits(s.subrange(a, b)) || digits_val(s.subrange(a, b)) > u64::MAX,
{
    if all_digits(s.subrange(a, b)) {
        let whole = s.subrange(a, b);
        assert(whole.subrange(0, k - a + 1).drop_last() =~= whole.subrange(0, k - a));
        assert(whole.subrange(0, k - a) =~= s.subrange(a, k));
        assert(whole[k - a] == s[k]);
        assert(digits_val(whole.subrange(0, k - a + 1)) == v * 10 + d);
        lemma_digits_val_prefix(whole, k - a + 1);
    }
}

/// `c` is one of the whitespace characters XML allows around markup.
pub open spec fn is_xml_ws(c: char) -> bool {
    c == ' ' || c == '\t' || c == '\r' || c == '\n'
}

/// Where the run of leading whitespace starting at `i` ends.
pub open spec fn ws_end(s: Seq<char>, i: int) -> int
    decreases s.len() - i,
{
    if 0 <= i < s.len() && is_xml_ws(s[i]) {
        ws_end(s, i + 1)
    } else {
        i
    }
}

/// Skips XML whitespace from `from`, stopping at the first other character
/// or at the end of the text.
pub fn skip_ws(hay: &Vec<char>, from: usize) -> (r: usize)
    requires
        from <= hay@.len(),
    ensures
        r == ws_end(hay@, from as int),
        from <= r <= hay@.len(),
{
    let n = hay.len();
    let mut i: usize = from;
    while i < n
        invariant
            from <= i <= n,
            n == hay@.len(),
            ws_end(hay@, from as int) == ws_end(hay@, i as int),
        decreases n - i,
    {
        let c = hay[i];
        if !(c == ' ' || c == '\t' || c == '\r' || c == '\n') {
            return i;
        }
        i += 1;
    }
    i
}

/// Whether two strings hold the same characters.
pub fn str_eq(a: &str, b: &str) -> (r: bool)
    ensures
        r == (a@ == b@),
{
    let va = to_chars(a);
    let vb = to_chars(b);
    if va.len() != vb.len() {
        return false;
    }
    proof {
        assert(va@.subrange(0, vb@.len() as int) =~= va@);
    }
    match_here(&va, &vb, 0)
}

} // verus!
