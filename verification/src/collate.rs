//! Pagination of item listings: which items a page shows, the SQL that
//! fetches them, the page links and the navigation bar between pages.
use vstd::prelude::*;
use crate::text::{
    all_digits, chars_of, decimal, decimal_string, is_digit, lemma_decimal_digits, lemma_parse_decimal,
    parse_bounded, parse_unsigned_in, push_decimal,
};

verus! {

/// Root of the blog's URLs, the base that page links start from.
pub const BLOG_URL: &'static str = "/";

/// Pages needed to show `total` items, `ipp` on each page.
pub open spec fn pages_for(total: nat, ipp: nat) -> nat {
    if total % ipp != 0 {
        total / ipp + 1
    } else {
        total / ipp
    }
}

/// The page that is shown when page `cur_page` of `pages` is asked for:
/// a page past the last shows the last, page 0 shows the first.
pub open spec fn shown_page(cur_page: nat, pages: nat) -> nat {
    if cur_page > pages {
        pages
    } else if cur_page == 0 {
        1
    } else {
        cur_page
    }
}

/// `ipp` held between the bounds `lo` and `hi`.
pub open spec fn clamp_ipp(ipp: nat, lo: nat, hi: nat) -> nat {
    if ipp < lo {
        lo
    } else if ipp > hi {
        hi
    } else {
        ipp
    }
}

/// The query string of the link to page `page_num`, where the page shows
/// `ipp` items and `default_ipp` is what a page shows when none is asked for.
/// No query is needed for the first page at the default size.
pub open spec fn link_query(page_num: nat, ipp: nat, default_ipp: nat) -> Option<Seq<char>> {
    if page_num > 1 && ipp != default_ipp {
        Some("page="@ + decimal(page_num) + "&ipp="@ + decimal(ipp))
    } else if page_num > 1 {
        Some("page="@ + decimal(page_num))
    } else if ipp != default_ipp {
        Some("ipp="@ + decimal(ipp))
    } else {
        None
    }
}

/// The URL of page `page_num` of the listing at `route`.
pub open spec fn page_url(route: Seq<char>, page_num: nat, ipp: nat, default_ipp: nat) -> Seq<char> {
    match link_query(page_num, ipp, default_ipp) {
        Some(q) => route + seq!['?'] + q,
        None => route,
    }
}

/// An anchor to `url` reading `text`.
pub open spec fn link_html(url: Seq<char>, text: Seq<char>) -> Seq<char> {
    " <a href=\""@ + url + "\">"@ + text + "</a> "@
}

/// The anchor of the page being shown.
pub open spec fn active_link_html(url: Seq<char>, text: Seq<char>) -> Seq<char> {
    " <a href=\""@ + url + "\" class=\"active\">["@ + text + "]</a> "@
}

/// Anchors to the pages `lo .. hi`, each reading its number.
pub open spec fn numbered_links(route: Seq<char>, ipp: nat, default_ipp: nat, lo: nat, hi: nat) -> Seq<
    char,
>
    decreases hi - lo,
{
    if hi <= lo {
        Seq::empty()
    } else {
        numbered_links(route, ipp, default_ipp, lo, (hi - 1) as nat) + link_html(
            page_url(route, (hi - 1) as nat, ipp, default_ipp),
            decimal((hi - 1) as nat),
        )
    }
}

/// The anchors left of the current page `cur`: all earlier pages when there
/// are no more than `abs + rel + pad` of them, else the first `abs` pages, a
/// gap where the pages between are left out, and the `rel` pages just before.
pub open spec fn left_links(
    route: Seq<char>,
    ipp: nat,
    default_ipp: nat,
    abs: nat,
    rel: nat,
    pad: nat,
    pages: nat,
    cur: nat,
) -> Seq<char> {
    if cur - 1 <= abs + rel + pad {
        numbered_links(route, ipp, default_ipp, 1, cur)
    } else if abs > 0 || rel > 0 {
        numbered_links(route, ipp, default_ipp, 1, abs + 1) + " ... "@ + numbered_links(
            route,
            ipp,
            default_ipp,
            (cur - rel) as nat,
            cur,
        )
    } else {
        Seq::empty()
    }
}

/// The anchors right of the current page `cur`: all later pages when there
/// are no more than `abs + rel + pad` of them, else the `rel` pages just
/// after, a gap where the pages between are left out, and the last `abs` pages.
pub open spec fn right_links(
    route: Seq<char>,
    ipp: nat,
    default_ipp: nat,
    abs: nat,
    rel: nat,
    pad: nat,
    pages: nat,
    cur: nat,
) -> Seq<char> {
    if pages - cur <= abs + rel + pad {
        numbered_links(route, ipp, default_ipp, cur + 1, pages + 1)
    } else if abs > 0 || rel > 0 {
        numbered_links(route, ipp, default_ipp, cur + 1, cur + rel + 1) + " ... "@
            + numbered_links(route, ipp, default_ipp, (pages - abs + 1) as nat, pages + 1)
    } else {
        Seq::empty()
    }
}

/// The frame of the navigation bar around its five parts.
pub open spec fn nav_layout(
    prev: Seq<char>,
    left: Seq<char>,
    active: Seq<char>,
    right: Seq<char>,
    next: Seq<char>,
) -> Seq<char> {
    "<div class=\"v-collate row\">"@ + "<div class=\"v-collate-prevnext col-2\">"@ + prev + "</div>"@
        + "<div class=\"v-collate-left col-3\">"@ + left + "</div>"@ + "<div class=\"v-collate-cur\">"@
        + active + "</div>"@ + "<div class=\"v-collate-right col-3\">"@ + right + "</div>"@
        + "<div class=\"v-collate-prevnext col-2\">"@ + next + "</div>"@ + "</div>"@
}

/// The navigation bar of a listing of `total` items at `route`, asked for
/// page `cur_page`.
pub open spec fn navigation_html(
    route: Seq<char>,
    cur_page: nat,
    ipp: nat,
    default_ipp: nat,
    abs: nat,
    rel: nat,
    pad: nat,
    total: nat,
) -> Seq<char> {
    let pages = pages_for(total, ipp);
    let cur = shown_page(cur_page, pages);
    let prev = if cur != 1 {
        link_html(page_url(route, (cur - 1) as nat, ipp, default_ipp), "[Previous]"@)
    } else {
        Seq::empty()
    };
    let next = if cur != pages {
        link_html(page_url(route, cur + 1, ipp, default_ipp), "[Next]"@)
    } else {
        Seq::empty()
    };
    nav_layout(
        prev,
        left_links(route, ipp, default_ipp, abs, rel, pad, pages, cur),
        active_link_html(page_url(route, cur, ipp, default_ipp), decimal(cur)),
        right_links(route, ipp, default_ipp, abs, rel, pad, pages, cur),
        next,
    )
}

/// `query` restricted to one page of `ipp` items starting at item `start`,
/// ordered by `orderby` when given.
pub open spec fn paged_sql(query: Seq<char>, orderby: Option<Seq<char>>, ipp: nat, start: nat) -> Seq<
    char,
> {
    let ordered = match orderby {
        Some(order) => query + " ORDER BY "@ + order,
        None => query,
    };
    ordered + " LIMIT "@ + decimal(ipp) + " OFFSET "@ + decimal(start)
}

/// The summary line above a listing.
pub open spec fn page_info_text(cur: nat, pages: nat, total: nat) -> Seq<char> {
    "Showing page "@ + decimal(cur) + " of "@ + decimal(pages) + " &nbsp; - &nbsp; "@ + decimal(
        total,
    ) + " items found."@
}

/// The pieces of `s` between the occurrences of `sep`, as `str::split`
/// yields them: one piece more than there are separators.
pub open spec fn split_on(s: Seq<char>, sep: char) -> Seq<Seq<char>>
    decreases s.len(),
{
    if s.len() == 0 {
        seq![Seq::empty()]
    } else {
        let prev = split_on(s.drop_last(), sep);
        if s.last() == sep {
            prev.push(Seq::empty())
        } else {
            prev.update(prev.len() - 1, prev.last().push(s.last()))
        }
    }
}

/// Index of the first `c` in `s`.
pub open spec fn find_char(s: Seq<char>, c: char) -> Option<nat>
    decreases s.len(),
{
    if s.len() == 0 {
        None
    } else if s[0] == c {
        Some(0)
    } else {
        match find_char(s.drop_first(), c) {
            Some(k) => Some(k + 1),
            None => None,
        }
    }
}

/// A `key=value` pair split at its first `=`; `None` for a piece without one.
pub open spec fn key_value(pair: Seq<char>) -> Option<(Seq<char>, Seq<char>)> {
    match find_char(pair, '=') {
        Some(k) => Some((pair.take(k as int), pair.skip((k + 1) as int))),
        None => None,
    }
}

/// The query key of the page number.
pub open spec fn page_key() -> Seq<char> {
    seq!['p', 'a', 'g', 'e']
}

/// The query key of the page size.
pub open spec fn ipp_key() -> Seq<char> {
    seq!['i', 'p', 'p']
}

/// The page and page size after reading one `key=value` pair: a `page` or
/// `ipp` value that does not parse gives 1 or the default size.
pub open spec fn apply_pair(state: (nat, nat), pair: Seq<char>, default_ipp: nat) -> (nat, nat) {
    match key_value(pair) {
        Some((k, v)) => if k == page_key() {
            (
                match parse_bounded(v, u32::MAX as nat) {
                    Some(n) => n,
                    None => 1,
                },
                state.1,
            )
        } else if k == ipp_key() {
            (
                state.0,
                match parse_bounded(v, u8::MAX as nat) {
                    Some(n) => n,
                    None => default_ipp,
                },
            )
        } else {
            state
        },
        None => state,
    }
}

/// The page and page size that a sequence of query pairs asks for, the last
/// mention of a key winning; page 1 and the default size when not mentioned.
pub open spec fn query_settings(pairs: Seq<Seq<char>>, default_ipp: nat) -> (nat, nat)
    decreases pairs.len(),
{
    if pairs.len() == 0 {
        (1, default_ipp)
    } else {
        apply_pair(query_settings(pairs.drop_last(), default_ipp), pairs.last(), default_ipp)
    }
}

/// The page and page size that a request asks for by its query string.
pub open spec fn uri_settings(query: Option<Seq<char>>, default_ipp: nat) -> (nat, nat) {
    match query {
        Some(q) => query_settings(split_on(q, '&'), default_ipp),
        None => (1, default_ipp),
    }
}

/// `find_char` finds the first occurrence.
pub proof fn lemma_find_char(s: Seq<char>, c: char, k: int)
    requires
        0 <= k <= s.len(),
        forall|i: int| 0 <= i < k ==> s[i] != c,
        k < s.len() ==> s[k] == c,
    ensures
        find_char(s, c) == (if k < s.len() {
            Some(k as nat)
        } else {
            None::<nat>
        }),
    decreases k,
{
    if k > 0 {
        assert(s[0] != c);
        lemma_find_char(s.drop_first(), c, k - 1);
    }
}

/// The page and page size that `chars[a..b]`, one `key=value` piece of a
/// query, leaves after `state`.
fn read_pair(chars: &Vec<char>, a: usize, b: usize, state: (u32, u8), default_ipp: u8) -> (r: (
    u32,
    u8,
))
    requires
        a <= b <= chars@.len(),
    ensures
        (r.0 as nat, r.1 as nat) == apply_pair(
            (state.0 as nat, state.1 as nat),
            chars@.subrange(a as int, b as int),
            default_ipp as nat,
        ),
{
    let ghost piece = chars@.subrange(a as int, b as int);
    let mut j = a;
    while j < b
        invariant
            a <= j <= b <= chars@.len(),
            piece == chars@.subrange(a as int, b as int),
            forall|i: int| 0 <= i < j - a ==> piece[i] != '=',
        ensures
            a <= j <= b,
            forall|i: int| 0 <= i < j - a ==> piece[i] != '=',
            j < b ==> piece[j - a] == '=',
        decreases b - j,
    {
        if chars[j] == '=' {
            break;
        }
        j = j + 1;
    }
    proof {
        lemma_find_char(piece, '=', j - a);
    }
    if j == b {
        return state;
    }
    let ghost key = piece.take(j - a);
    let ghost value = piece.skip(j - a + 1);
    assert(key =~= chars@.subrange(a as int, j as int));
    assert(value =~= chars@.subrange(j + 1, b as int));
    if j - a == 4 && chars[a] == 'p' && chars[a + 1] == 'a' && chars[a + 2] == 'g' && chars[a
        + 3] == 'e' {
        assert(key =~= page_key());
        let parsed = parse_unsigned_in(chars, j + 1, b, 4294967295u64);
        let page: u32 = match parsed {
            Some(v) => v as u32,
            None => 1,
        };
        (page, state.1)
    } else if j - a == 3 && chars[a] == 'i' && chars[a + 1] == 'p' && chars[a + 2] == 'p' {
        assert(key =~= ipp_key());
        assert(key != page_key());
        let parsed = parse_unsigned_in(chars, j + 1, b, 255u64);
        let ipp: u8 = match parsed {
            Some(v) => v as u8,
            None => default_ipp,
        };
        (state.0, ipp)
    } else {
        proof {
            if key == page_key() {
                assert(key[0] == 'p' && key[1] == 'a' && key[2] == 'g' && key[3] == 'e');
            }
            if key == ipp_key() {
                assert(key[0] == 'i' && key[1] == 'p' && key[2] == 'p');
            }
        }
        state
    }
}

/// The page and page size that the query string `q` asks for, as
/// `Collate::parse_uri` reads it.
fn read_query(q: &str, default_ipp: u8) -> (r: (u32, u8))
    ensures
        (r.0 as nat, r.1 as nat) == query_settings(split_on(q@, '&'), default_ipp as nat),
{
    let chars = chars_of(q);
    let n = chars.len();
    let mut state: (u32, u8) = (1, default_ipp);
    let mut start: usize = 0;
    let mut i: usize = 0;
    let ghost mut done: Seq<Seq<char>> = Seq::empty();
    proof {
        assert(chars@.take(0) =~= Seq::<char>::empty());
        assert(chars@.subrange(0, 0) =~= Seq::<char>::empty());
        assert(split_on(Seq::<char>::empty(), '&') =~= done.push(Seq::<char>::empty()));
    }
    while i < n
        invariant
            n == chars@.len(),
            chars@ == q@,
            start <= i <= n,
            split_on(chars@.take(i as int), '&') == done.push(chars@.subrange(start as int, i as int)),
            (state.0 as nat, state.1 as nat) == query_settings(done, default_ipp as nat),
        decreases n - i,
    {
        let ghost prefix = chars@.take(i + 1);
        proof {
            assert(prefix.drop_last() =~= chars@.take(i as int));
            assert(prefix.last() == chars@[i as int]);
        }
        if chars[i] == '&' {
            let ghost piece = chars@.subrange(start as int, i as int);
            state = read_pair(&chars, start, i, state, default_ipp);
            proof {
                assert(done.push(piece).drop_last() =~= done);
                done = done.push(piece);
                assert(chars@.subrange(i + 1, i + 1) =~= Seq::<char>::empty());
            }
            start = i + 1;
        } else {
            proof {
                let prev = done.push(chars@.subrange(start as int, i as int));
                assert(chars@.subrange(start as int, i + 1) =~= chars@.subrange(
                    start as int,
                    i as int,
                ).push(chars@[i as int]));
                assert(prev.update(prev.len() - 1, prev.last().push(chars@[i as int])) =~= done.push(
                    chars@.subrange(start as int, i + 1),
                ));
            }
        }
        i = i + 1;
    }
    let ghost last = chars@.subrange(start as int, n as int);
    state = read_pair(&chars, start, n, state, default_ipp);
    proof {
        assert(chars@.take(n as int) =~= chars@);
        assert(done.push(last).drop_last() =~= done);
    }
    state
}

proof fn lemma_split_no_sep(s: Seq<char>, sep: char)
    requires
        forall|i: int| 0 <= i < s.len() ==> s[i] != sep,
    ensures
        split_on(s, sep) == seq![s],
    decreases s.len(),
{
    if s.len() > 0 {
        lemma_split_no_sep(s.drop_last(), sep);
        assert(s.drop_last().push(s.last()) =~= s);
        assert(seq![s.drop_last()].update(0, s.drop_last().push(s.last())) =~= seq![s]);
    } else {
        assert(s =~= Seq::<char>::empty());
    }
}

proof fn lemma_split_two(a: Seq<char>, b: Seq<char>, sep: char)
    requires
        forall|i: int| 0 <= i < a.len() ==> a[i] != sep,
        forall|i: int| 0 <= i < b.len() ==> b[i] != sep,
    ensures
        split_on(a + seq![sep] + b, sep) == seq![a, b],
    decreases b.len(),
{
    let s = a + seq![sep] + b;
    if b.len() == 0 {
        assert(s.drop_last() =~= a);
        lemma_split_no_sep(a, sep);
        assert(b =~= Seq::<char>::empty());
        assert(seq![a].push(Seq::<char>::empty()) =~= seq![a, b]);
    } else {
        lemma_split_two(a, b.drop_last(), sep);
        assert(s.drop_last() =~= a + seq![sep] + b.drop_last());
        assert(s.last() == b.last());
        assert(b.drop_last().push(b.last()) =~= b);
        assert(seq![a, b.drop_last()].update(1, b.drop_last().push(b.last())) =~= seq![a, b]);
    }
}

proof fn lemma_read_pair(key: Seq<char>, digits: Seq<char>)
    requires
        forall|i: int| 0 <= i < key.len() ==> key[i] != '=',
        all_digits(digits),
    ensures
        key_value(key + seq!['='] + digits) == Some((key, digits)),
{
    let s = key + seq!['='] + digits;
    lemma_find_char(s, '=', key.len() as int);
    assert(s.take(key.len() as int) =~= key);
    assert(s.skip((key.len() + 1) as int) =~= digits);
}

proof fn lemma_decimal_plain(n: nat)
    ensures
        all_digits(decimal(n)),
        forall|i: int| 0 <= i < decimal(n).len() ==> decimal(n)[i] != '&' && decimal(n)[i] != '=',
        parse_bounded(decimal(n), u32::MAX as nat) == (if n <= u32::MAX {
            Some(n)
        } else {
            None::<nat>
        }),
        parse_bounded(decimal(n), u8::MAX as nat) == (if n <= u8::MAX {
            Some(n)
        } else {
            None::<nat>
        }),
{
    lemma_decimal_digits(n);
    lemma_parse_decimal(n);
    assert forall|i: int| 0 <= i < decimal(n).len() implies decimal(n)[i] != '&' && decimal(
        n,
    )[i] != '=' by {
        assert(is_digit(decimal(n)[i]));
    }
}

/// Reading back a page link: the query that `Collate::link` writes for page
/// `n` at page size `ipp` asks, when parsed as a request, for page `n` at
/// page size `ipp`.
pub proof fn law_link_query_reads_back(n: nat, ipp: nat, default_ipp: nat)
    requires
        1 <= n <= u32::MAX,
        ipp <= u8::MAX,
    ensures
        uri_settings(link_query(n, ipp, default_ipp), default_ipp) == (n, ipp),
{
    reveal_strlit("page=");
    reveal_strlit("&ipp=");
    reveal_strlit("ipp=");
    lemma_decimal_plain(n);
    lemma_decimal_plain(ipp);
    let pk = page_key() + seq!['='] + decimal(n);
    let ik = ipp_key() + seq!['='] + decimal(ipp);
    lemma_read_pair(page_key(), decimal(n));
    lemma_read_pair(ipp_key(), decimal(ipp));
    assert(page_key() != ipp_key()) by {
        assert(page_key().len() != ipp_key().len());
    }
    let d = default_ipp;
    let start = (1nat, d);
    assert(query_settings(Seq::<Seq<char>>::empty(), d) == start);
    assert(seq![pk].last() == pk);
    assert(seq![ik].last() == ik);
    if n > 1 && ipp != d {
        let q = "page="@ + decimal(n) + "&ipp="@ + decimal(ipp);
        assert(q =~= pk + seq!['&'] + ik);
        lemma_split_two(pk, ik, '&');
        let pairs = seq![pk, ik];
        assert(pairs.drop_last() =~= seq![pk]);
        assert(seq![pk].drop_last() =~= Seq::<Seq<char>>::empty());
        assert(query_settings(seq![pk], d) == apply_pair(start, pk, d));
        assert(apply_pair(start, pk, d) == (n, d));
        assert(query_settings(pairs, d) == apply_pair((n, d), ik, d));
        assert(apply_pair((n, d), ik, d) == (n, ipp));
        assert(link_query(n, ipp, d) == Some(q));
    } else if n > 1 {
        let q = "page="@ + decimal(n);
        assert(q =~= pk);
        lemma_split_no_sep(pk, '&');
        assert(seq![pk].drop_last() =~= Seq::<Seq<char>>::empty());
        assert(query_settings(seq![pk], d) == apply_pair(start, pk, d));
        assert(apply_pair(start, pk, d) == (n, d));
        assert(link_query(n, ipp, d) == Some(q));
    } else if ipp != d {
        let q = "ipp="@ + decimal(ipp);
        assert(q =~= ik);
        lemma_split_no_sep(ik, '&');
        assert(seq![ik].drop_last() =~= Seq::<Seq<char>>::empty());
        assert(query_settings(seq![ik], d) == apply_pair(start, ik, d));
        assert(apply_pair(start, ik, d) == (1nat, ipp));
        assert(link_query(n, ipp, d) == Some(q));
    }
}

/// An empty query string asks for the same page as no query string.
pub proof fn law_empty_query_is_no_query(default_ipp: nat)
    ensures
        uri_settings(Some(Seq::empty()), default_ipp) == uri_settings(None, default_ipp),
{
    let e = Seq::<char>::empty();
    lemma_split_no_sep(e, '&');
    assert(find_char(e, '=') is None);
    assert(key_value(e) is None);
    assert(seq![e].drop_last() =~= Seq::<Seq<char>>::empty());
    assert(query_settings(seq![e], default_ipp) == apply_pair(
        query_settings(Seq::<Seq<char>>::empty(), default_ipp),
        e,
        default_ipp,
    ));
}

/// A page of `ipp` items runs from `start()` to `end()`: exactly `ipp`
/// items, and the next page starts right after it.
pub proof fn law_page_span(cur_page: nat, ipp: nat)
    requires
        cur_page >= 1,
        ipp >= 1,
    ensures
        (cur_page * ipp - 1) - (cur_page - 1) * ipp + 1 == ipp,
        (cur_page * ipp - 1) + 1 == ((cur_page + 1) - 1) * ipp,
{
    assert((cur_page - 1) * ipp == cur_page * ipp - ipp) by (nonlinear_arith);
    assert(((cur_page + 1) - 1) * ipp == cur_page * ipp) by (nonlinear_arith);
}

/// The page count covers every item and no more pages than needed:
/// no pages for no items, and otherwise all but the last page are full.
pub proof fn law_page_count_covers(total: nat, ipp: nat)
    requires
        ipp >= 1,
    ensures
        (pages_for(total, ipp) == 0) <==> (total == 0),
        total <= pages_for(total, ipp) * ipp,
        total > 0 ==> (pages_for(total, ipp) - 1) * ipp < total,
{
    let q = total / ipp;
    let r = total % ipp;
    assert(total == q * ipp + r && 0 <= r < ipp) by (nonlinear_arith)
        requires
            ipp >= 1,
            q == total / ipp,
            r == total % ipp,
    ;
    if r != 0 {
        assert((q + 1) * ipp == q * ipp + ipp) by (nonlinear_arith);
    } else {
        if q >= 1 {
            assert((q - 1) * ipp == q * ipp - ipp) by (nonlinear_arith);
        } else {
            assert(q * ipp == 0) by (nonlinear_arith)
                requires
                    q == 0,
            ;
        }
    }
}

/// The page shown is always one of the listing's pages, and it is the page
/// asked for whenever that page exists.
pub proof fn law_shown_page_exists(cur_page: nat, pages: nat)
    requires
        pages >= 1,
    ensures
        1 <= shown_page(cur_page, pages) <= pages,
        1 <= cur_page <= pages ==> shown_page(cur_page, pages) == cur_page,
{
}

/// `check_ipp` holds a page size between the limits, and a size already
/// within them is kept.
pub proof fn law_check_ipp_within(ipp: nat, lo: nat, hi: nat)
    requires
        lo <= hi,
    ensures
        lo <= clamp_ipp(ipp, lo, hi) <= hi,
        lo <= ipp <= hi ==> clamp_ipp(ipp, lo, hi) == ipp,
        clamp_ipp(clamp_ipp(ipp, lo, hi), lo, hi) == clamp_ipp(ipp, lo, hi),
{
}

/// The SQL of a page always ends by limiting the query to `ipp` rows
/// starting at row `start`, ordered or not; ordering only puts
/// ` ORDER BY ` and the order after the query, and the query itself comes
/// first unchanged.
pub proof fn law_sql_limits_to_page(query: Seq<char>, orderby: Option<Seq<char>>, ipp: nat, start: nat)
    ensures
        ({
            let tail = " LIMIT "@ + decimal(ipp) + " OFFSET "@ + decimal(start);
            let q = paged_sql(query, orderby, ipp, start);
            &&& q.len() >= query.len() + tail.len()
            &&& q.subrange(q.len() - tail.len(), q.len() as int) == tail
            &&& q.subrange(0, query.len() as int) == query
            &&& orderby matches Some(o) ==> q == paged_sql(query + " ORDER BY "@ + o, None, ipp, start)
            &&& orderby is None ==> q == query + tail
        }),
{
    let tail = " LIMIT "@ + decimal(ipp) + " OFFSET "@ + decimal(start);
    let q = paged_sql(query, orderby, ipp, start);
    match orderby {
        Some(o) => {
            let head = query + " ORDER BY "@ + o;
            assert(q =~= head + tail);
            assert(q.subrange(q.len() - tail.len(), q.len() as int) =~= tail);
            assert(q.subrange(0, query.len() as int) =~= query);
        },
        None => {
            assert(q =~= query + tail);
            assert(q.subrange(q.len() - tail.len(), q.len() as int) =~= tail);
            assert(q.subrange(0, query.len() as int) =~= query);
        },
    }
}

/// Among the numbered anchors to pages `lo .. hi`, the anchor to page `n`
/// comes after those to the pages before it and before those to the pages
/// after it, links to page `n` at the listing's own page size `ipp`, and
/// reads `n`; its query, read back, asks for page `n` at size `ipp`.
pub proof fn law_numbered_link_keeps_page_size(
    route: Seq<char>,
    ipp: nat,
    default_ipp: nat,
    lo: nat,
    hi: nat,
    n: nat,
)
    requires
        lo <= n < hi,
    ensures
        numbered_links(route, ipp, default_ipp, lo, hi) == numbered_links(route, ipp, default_ipp, lo, n)
            + link_html(page_url(route, n, ipp, default_ipp), decimal(n)) + numbered_links(
            route,
            ipp,
            default_ipp,
            n + 1,
            hi,
        ),
        1 <= n <= u32::MAX && ipp <= u8::MAX ==> uri_settings(link_query(n, ipp, default_ipp), default_ipp)
            == (n, ipp),
    decreases hi - lo,
{
    let f = |a: nat, b: nat| numbered_links(route, ipp, default_ipp, a, b);
    let l = link_html(page_url(route, n, ipp, default_ipp), decimal(n));
    if n == hi - 1 {
        assert(f(n + 1, hi) =~= Seq::<char>::empty());
        assert(f(lo, hi) =~= f(lo, n) + l + f(n + 1, hi));
    } else {
        law_numbered_link_keeps_page_size(route, ipp, default_ipp, lo, (hi - 1) as nat, n);
        let last = link_html(page_url(route, (hi - 1) as nat, ipp, default_ipp), decimal((hi - 1) as nat));
        assert(f(lo, hi) == f(lo, (hi - 1) as nat) + last);
        assert(f(n + 1, hi) == f(n + 1, (hi - 1) as nat) + last);
        assert(f(lo, hi) =~= f(lo, n) + l + f(n + 1, hi));
    }
    if 1 <= n <= u32::MAX && ipp <= u8::MAX {
        law_link_query_reads_back(n, ipp, default_ipp);
    }
}

/// The navigation bar links no page twice and no page outside the listing,
/// and it leaves a gap only where pages are left out: where the left side
/// is cut, the first `abs` pages end before page `cur - rel - 1`, which is
/// not linked, and the `rel` pages before the current one follow; where the
/// right side is cut, the `rel` pages after the current one end before page
/// `pages - abs`, which is not linked, and the last `abs` pages follow.
pub proof fn law_navigation_ranges_apart(abs: nat, rel: nat, pad: nat, pages: nat, cur: nat)
    requires
        1 <= cur <= pages,
    ensures
        cur - 1 > abs + rel + pad ==> 1 <= abs + 1 < cur - rel && cur - rel <= cur,
        pages - cur > abs + rel + pad ==> cur + 1 <= cur + rel + 1 < pages - abs + 1 && pages
            - abs + 1 <= pages + 1,
{
}

/// A side of the navigation bar with no more than `abs + rel + pad` pages
/// links each of them, in order, with no gap.
pub proof fn law_navigation_short_side_whole(
    route: Seq<char>,
    ipp: nat,
    default_ipp: nat,
    abs: nat,
    rel: nat,
    pad: nat,
    pages: nat,
    cur: nat,
)
    requires
        1 <= cur <= pages,
    ensures
        cur - 1 <= abs + rel + pad ==> left_links(route, ipp, default_ipp, abs, rel, pad, pages, cur)
            == numbered_links(route, ipp, default_ipp, 1, cur),
        pages - cur <= abs + rel + pad ==> right_links(
            route,
            ipp,
            default_ipp,
            abs,
            rel,
            pad,
            pages,
            cur,
        ) == numbered_links(route, ipp, default_ipp, cur + 1, pages + 1),
{
}

/// A listing's page: the page asked for, the route of the listing and the
/// pagination settings.
#[derive(Debug, Clone)]
pub struct Page<T: Collate> {
    pub cur_page: u32,
    pub route: String,
    pub settings: T,
}

/// Pagination settings holding only the number of items per page; every
/// other setting takes its usual value.
#[derive(Debug, Clone)]
pub struct Pagination {
    pub ipp: u8,
}

/// The settings of a paginated listing. An implementor chooses the page size
/// it holds and the limits and link counts the listing uses.
pub trait Collate: Sized {
    /// The number of items per page these settings hold.
    spec fn items_per_page(&self) -> u8;

    spec fn default_items_per_page() -> u8;

    spec fn relative_links() -> u8;

    spec fn absolute_links() -> u8;

    spec fn padding_links() -> u8;

    spec fn base_link() -> Seq<char>;

    spec fn fewest_items() -> u8;

    spec fn most_items() -> u8;

    spec fn current_class() -> Seq<char>;

    fn new(ipp: u8) -> (r: Self)
        ensures
            r.items_per_page() == ipp,
    ;

    fn ipp(&self) -> (r: u8)
        ensures
            r == self.items_per_page(),
    ;

    fn default_ipp() -> (r: u8)
        ensures
            r == Self::default_items_per_page(),
    ;

    /// relative pages on each side of page
    fn rel_links() -> (r: u8)
        ensures
            r == Self::relative_links(),
    ;

    /// number of pages to show from first and last page
    fn abs_links() -> (r: u8)
        ensures
            r == Self::absolute_links(),
    ;

    /// max number of pages above the min page links before not all pages are shown
    fn links_padding() -> (r: u8)
        ensures
            r == Self::padding_links(),
    ;

    fn link_base() -> (r: &'static str)
        ensures
            r@ == Self::base_link(),
    ;

    fn min_ipp() -> (r: u8)
        ensures
            r == Self::fewest_items(),
    ;

    fn max_ipp() -> (r: u8)
        ensures
            r == Self::most_items(),
    ;

    fn current_link() -> (r: &'static str)
        ensures
            r@ == Self::current_class(),
    ;

    /// The page size `ipp` held between `min_ipp()` and `max_ipp()`.
    fn check_ipp(ipp: u8) -> (r: u8)
        ensures
            r == clamp_ipp(ipp as nat, Self::fewest_items() as nat, Self::most_items() as nat),
    {
        if ipp < Self::min_ipp() {
            Self::min_ipp()
        } else if ipp > Self::max_ipp() {
            Self::max_ipp()
        } else {
            ipp
        }
    }

    /// The URL of page `page_num` of the listing `page` belongs to.
    fn link(page: &Page<Self>, page_num: u32) -> (r: String)
        ensures
            r@ == page_url(
                page.route@,
                page_num as nat,
                page.settings.items_per_page() as nat,
                Self::default_items_per_page() as nat,
            ),
    {
        let mut link = String::new();
        link.append(page.route.as_str());

        let mut has_qrystr = false;
        if page_num > 1 {
            link.append("?page=");
            push_decimal(&mut link, page_num as u64);
            has_qrystr = true;
        }
        let ipp = page.settings.ipp();
        if ipp != Self::default_ipp() {
            if has_qrystr {
                link.append("&ipp=");
            } else {
                link.append("?ipp=");
            }
            push_decimal(&mut link, ipp as u64);
        }
        proof {
            reveal_strlit("?page=");
            reveal_strlit("page=");
            reveal_strlit("?ipp=");
            reveal_strlit("ipp=");
            let route = page.route@;
            let n = page_num as nat;
            let i = ipp as nat;
            if page_num > 1 && ipp != Self::default_items_per_page() {
                assert(link@ =~= route + seq!['?'] + ("page="@ + decimal(n) + "&ipp="@ + decimal(i)));
            } else if page_num > 1 {
                assert(link@ =~= route + seq!['?'] + ("page="@ + decimal(n)));
            } else if ipp != Self::default_items_per_page() {
                assert(link@ =~= route + seq!['?'] + ("ipp="@ + decimal(i)));
            } else {
                assert(link@ =~= route);
            }
        }
        link
    }

    /// The page a query string `qrystr` of the listing at `route` asks for.
    fn parse_uri(qrystr: &str, route: String) -> (r: Page<Self>)
        ensures
            r.route == route,
            r.cur_page as nat == query_settings(
                split_on(qrystr@, '&'),
                Self::default_items_per_page() as nat,
            ).0,
            r.settings.items_per_page() as nat == query_settings(
                split_on(qrystr@, '&'),
                Self::default_items_per_page() as nat,
            ).1,
    {
        let (cur_page, ipp) = read_query(qrystr, Self::default_ipp());
        Page { cur_page, route, settings: Self::new(ipp) }
    }
}

/// With more than one item per page the page count cannot reach `u32::MAX`.
proof fn lemma_page_count_fits(total: u32, ipp: u32)
    requires
        ipp > 0,
        total % ipp != 0,
    ensures
        total / ipp + 1 <= u32::MAX,
{
    assert(ipp != 1);
    assert(total / ipp <= total / 2) by (nonlinear_arith)
        requires
            ipp >= 2,
    ;
}

/// An anchor to page `cur_page` of the listing `page` belongs to, reading `text`.
pub fn link<T: Collate>(page: &Page<T>, cur_page: u32, text: &str) -> (r: String)
    ensures
        r@ == link_html(
            page_url(
                page.route@,
                cur_page as nat,
                page.settings.items_per_page() as nat,
                T::default_items_per_page() as nat,
            ),
            text@,
        ),
{
    let url = T::link(page, cur_page);
    let mut link = String::new();
    link.append(" <a href=\"");
    link.append(url.as_str());
    link.append("\">");
    link.append(text);
    link.append("</a> ");
    assert(link@ =~= link_html(url@, text@));
    link
}

/// The anchor of page `cur_page`, the page being shown, reading `[text]`.
pub fn link_active<T: Collate>(page: &Page<T>, cur_page: u32, text: &str) -> (r: String)
    ensures
        r@ == active_link_html(
            page_url(
                page.route@,
                cur_page as nat,
                page.settings.items_per_page() as nat,
                T::default_items_per_page() as nat,
            ),
            text@,
        ),
{
    let url = T::link(page, cur_page);
    let mut link = String::new();
    link.append(" <a href=\"");
    link.append(url.as_str());
    link.append("\" class=\"active\">[");
    link.append(text);
    link.append("]</a> ");
    assert(link@ =~= active_link_html(url@, text@));
    link
}

/// Appends the anchors to pages `lo .. hi`, each reading its number.
fn push_numbered_links<T: Collate>(html: &mut String, page: &Page<T>, lo: u32, hi: u32)
    requires
        lo <= hi,
    ensures
        final(html)@ == old(html)@ + numbered_links(
            page.route@,
            page.settings.items_per_page() as nat,
            T::default_items_per_page() as nat,
            lo as nat,
            hi as nat,
        ),
{
    let ghost route = page.route@;
    let ghost ipp = page.settings.items_per_page() as nat;
    let ghost dipp = T::default_items_per_page() as nat;
    let mut p = lo;
    assert(old(html)@ =~= old(html)@ + numbered_links(route, ipp, dipp, lo as nat, lo as nat));
    while p < hi
        invariant
            lo <= p <= hi,
            route == page.route@,
            ipp == page.settings.items_per_page() as nat,
            dipp == T::default_items_per_page() as nat,
            html@ == old(html)@ + numbered_links(route, ipp, dipp, lo as nat, p as nat),
        decreases hi - p,
    {
        let num = decimal_string(p as u64);
        let a = link(page, p, num.as_str());
        html.append(a.as_str());
        assert(numbered_links(route, ipp, dipp, lo as nat, (p + 1) as nat) == numbered_links(
            route,
            ipp,
            dipp,
            lo as nat,
            p as nat,
        ) + link_html(page_url(route, p as nat, ipp, dipp), decimal(p as nat)));
        assert(html@ =~= old(html)@ + numbered_links(route, ipp, dipp, lo as nat, (p + 1) as nat));
        p = p + 1;
    }
}

proof fn lemma_pages_positive(total: nat, ipp: nat)
    requires
        total > 0,
        ipp > 0,
    ensures
        pages_for(total, ipp) >= 1,
{
    if total % ipp == 0 {
        assert(total / ipp >= 1) by (nonlinear_arith)
            requires
                total > 0,
                ipp > 0,
                total % ipp == 0,
        ;
    }
}

/// Joins the five parts of the navigation bar inside its frame.
fn nav_frame(prev: &str, left: &str, active: &str, right: &str, next: &str) -> (r: String)
    ensures
        r@ == nav_layout(prev@, left@, active@, right@, next@),
{
    let mut html = String::new();
    html.append("<div class=\"v-collate row\">");
    html.append("<div class=\"v-collate-prevnext col-2\">");
    html.append(prev);
    html.append("</div>");
    html.append("<div class=\"v-collate-left col-3\">");
    html.append(left);
    html.append("</div>");
    html.append("<div class=\"v-collate-cur\">");
    html.append(active);
    html.append("</div>");
    html.append("<div class=\"v-collate-right col-3\">");
    html.append(right);
    html.append("</div>");
    html.append("<div class=\"v-collate-prevnext col-2\">");
    html.append(next);
    html.append("</div>");
    html.append("</div>");
    assert(html@ =~= nav_layout(prev@, left@, active@, right@, next@));
    html
}

/// Appends the anchors left of the shown page `cur` of `pages`.
fn push_left_links<T: Collate>(
    html: &mut String,
    page: &Page<T>,
    abs: u32,
    rel: u32,
    pad: u32,
    pages: u32,
    cur: u32,
)
    requires
        abs == T::absolute_links(),
        rel == T::relative_links(),
        pad == T::padding_links(),
        1 <= cur <= pages,
    ensures
        final(html)@ == old(html)@ + left_links(
            page.route@,
            page.settings.items_per_page() as nat,
            T::default_items_per_page() as nat,
            abs as nat,
            rel as nat,
            pad as nat,
            pages as nat,
            cur as nat,
        ),
{
    let shown_all = abs + rel + pad;
    if cur - 1 <= shown_all {
        push_numbered_links(html, page, 1, cur);
    } else if abs > 0 || rel > 0 {
        let ghost start = html@;
        push_numbered_links(html, page, 1, abs + 1);
        html.append(" ... ");
        push_numbered_links(html, page, cur - rel, cur);
        assert(html@ =~= start + left_links(
            page.route@,
            page.settings.items_per_page() as nat,
            T::default_items_per_page() as nat,
            abs as nat,
            rel as nat,
            pad as nat,
            pages as nat,
            cur as nat,
        ));
    } else {
        assert(html@ =~= old(html)@ + Seq::<char>::empty());
    }
}

/// Appends the anchors right of the shown page `cur` of `pages`.
fn push_right_links<T: Collate>(
    html: &mut String,
    page: &Page<T>,
    abs: u32,
    rel: u32,
    pad: u32,
    pages: u32,
    cur: u32,
)
    requires
        abs == T::absolute_links(),
        rel == T::relative_links(),
        pad == T::padding_links(),
        1 <= cur <= pages,
        pages < u32::MAX,
    ensures
        final(html)@ == old(html)@ + right_links(
            page.route@,
            page.settings.items_per_page() as nat,
            T::default_items_per_page() as nat,
            abs as nat,
            rel as nat,
            pad as nat,
            pages as nat,
            cur as nat,
        ),
{
    let shown_all = abs + rel + pad;
    let right = pages - cur;
    if right <= shown_all {
        push_numbered_links(html, page, cur + 1, pages + 1);
    } else if abs > 0 || rel > 0 {
        let ghost start = html@;
        push_numbered_links(html, page, cur + 1, cur + rel + 1);
        html.append(" ... ");
        push_numbered_links(html, page, pages - abs + 1, pages + 1);
        assert(html@ =~= start + right_links(
            page.route@,
            page.settings.items_per_page() as nat,
            T::default_items_per_page() as nat,
            abs as nat,
            rel as nat,
            pad as nat,
            pages as nat,
            cur as nat,
        ));
    } else {
        assert(html@ =~= old(html)@ + Seq::<char>::empty());
    }
}

impl<T: Collate> Page<T> {
    /* 0 1 2 3 4    5 6 7 8 9    10 11 12 13 14 */
    /// Returns the index number of the first item on the page.
    /// If there are 5 items per page and the current page is 3
    /// then the start() would return 10
    pub fn start(&self) -> (r: u32)
        requires
            self.cur_page >= 1,
            (self.cur_page - 1) * self.settings.items_per_page() <= u32::MAX,
        ensures
            r == (self.cur_page - 1) * self.settings.items_per_page(),
    {
        (self.cur_page - 1) * (self.settings.ipp() as u32)
    }

    /// Returns the index number of the last item on the page.
    /// If there are 5 items per page and the current page is 3
    /// then the start() would return 14
    pub fn end(&self) -> (r: u32)
        requires
            1 <= self.cur_page * self.settings.items_per_page() <= u32::MAX,
        ensures
            r == self.cur_page * self.settings.items_per_page() - 1,
    {
        (self.cur_page * (self.settings.ipp() as u32)) - 1
    }

    /// The number of pages needed to show `total_items` items.
    pub fn num_pages(&self, total_items: u32) -> (r: u32)
        requires
            self.settings.items_per_page() > 0,
        ensures
            r == pages_for(total_items as nat, self.settings.items_per_page() as nat),
    {
        let ipp = self.settings.ipp() as u32;
        if total_items % ipp != 0 {
            proof {
                lemma_page_count_fits(total_items, ipp);
            }
            (total_items / ipp) + 1
        } else {
            total_items / ipp
        }
    }

    /// `query` restricted to the items of this page, ordered by `orderby`
    /// when given.
    pub fn sql(&self, query: &str, orderby: Option<&str>) -> (r: String)
        requires
            self.cur_page >= 1,
            (self.cur_page - 1) * self.settings.items_per_page() <= u32::MAX,
        ensures
            r@ == paged_sql(
                query@,
                match orderby {
                    Some(o) => Some(o@),
                    None => None,
                },
                self.settings.items_per_page() as nat,
                ((self.cur_page - 1) * self.settings.items_per_page()) as nat,
            ),
    {
        let mut qrystr = String::new();
        if let Some(order) = orderby {
            qrystr.append(query);
            qrystr.append(" ORDER BY ");
            qrystr.append(order);
        } else {
            qrystr.append(query);
        }
        let ghost ordered = qrystr@;
        qrystr.append(" LIMIT ");
        push_decimal(&mut qrystr, self.settings.ipp() as u64);
        qrystr.append(" OFFSET ");
        let start = self.start();
        push_decimal(&mut qrystr, start as u64);
        assert(qrystr@ =~= ordered + " LIMIT "@ + decimal(self.settings.items_per_page() as nat)
            + " OFFSET "@ + decimal(start as nat));
        qrystr
    }

    /// The summary line: the page shown, the number of pages and of items.
    pub fn page_info(&self, total_items: u32) -> (r: String)
        requires
            self.settings.items_per_page() > 0,
        ensures
            r@ == page_info_text(
                shown_page(
                    self.cur_page as nat,
                    pages_for(total_items as nat, self.settings.items_per_page() as nat),
                ),
                pages_for(total_items as nat, self.settings.items_per_page() as nat),
                total_items as nat,
            ),
    {
        let (_ipp, cur, pages) = self.page_data(total_items);
        let mut info = String::new();
        info.append("Showing page ");
        push_decimal(&mut info, cur as u64);
        info.append(" of ");
        push_decimal(&mut info, pages as u64);
        info.append(" &nbsp; - &nbsp; ");
        push_decimal(&mut info, total_items as u64);
        info.append(" items found.");
        assert(info@ =~= page_info_text(cur as nat, pages as nat, total_items as nat));
        info
    }

    /// The navigation bar: links to the previous and next page, to the pages
    /// around the shown one and to the first and last pages.
    pub fn navigation(&self, total_items: u32) -> (r: String)
        requires
            self.settings.items_per_page() > 0,
            total_items > 0,
            pages_for(total_items as nat, self.settings.items_per_page() as nat) < u32::MAX,
        ensures
            r@ == navigation_html(
                self.route@,
                self.cur_page as nat,
                self.settings.items_per_page() as nat,
                T::default_items_per_page() as nat,
                T::absolute_links() as nat,
                T::relative_links() as nat,
                T::padding_links() as nat,
                total_items as nat,
            ),
    {
        let ghost route = self.route@;
        let ghost ippn = self.settings.items_per_page() as nat;
        let ghost dipp = T::default_items_per_page() as nat;
        // <a href="{base}{route}[?[page=x][[&]ipp=y]]">{page}</a>
        let (_ipp, cur, num_pages) = self.page_data(total_items);
        proof {
            lemma_pages_positive(total_items as nat, ippn);
        }
        let abs = T::abs_links() as u32;
        let rel = T::rel_links() as u32;
        let pad = T::links_padding() as u32;

        let mut prev = String::new();
        if cur != 1 {
            prev = link(self, cur - 1, "[Previous]");
        }
        let mut left = String::new();
        push_left_links(&mut left, self, abs, rel, pad, num_pages, cur);
        let cur_text = decimal_string(cur as u64);
        let active = link_active(self, cur, cur_text.as_str());
        let mut right = String::new();
        push_right_links(&mut right, self, abs, rel, pad, num_pages, cur);
        let mut next = String::new();
        if cur != num_pages {
            next = link(self, cur + 1, "[Next]");
        }
        assert(prev@ =~= (if cur != 1 {
            link_html(page_url(route, (cur - 1) as nat, ippn, dipp), "[Previous]"@)
        } else {
            Seq::<char>::empty()
        }));
        assert(next@ =~= (if cur != num_pages {
            link_html(page_url(route, (cur + 1) as nat, ippn, dipp), "[Next]"@)
        } else {
            Seq::<char>::empty()
        }));
        nav_frame(prev.as_str(), left.as_str(), active.as_str(), right.as_str(), next.as_str())
    }

    /// The page that a request for `path` with the query string `query`
    /// asks for; without a query, the first page at the default size.
    pub fn from_uri(path: String, query: Option<&str>) -> (r: Page<T>)
        ensures
            r.route == path,
            (r.cur_page as nat, r.settings.items_per_page() as nat) == uri_settings(
                match query {
                    Some(q) => Some(q@),
                    None => None,
                },
                T::default_items_per_page() as nat,
            ),
    {
        if let Some(qrystr) = query {
            T::parse_uri(qrystr, path)
        } else {
            Page { cur_page: 1, route: path, settings: T::new(T::default_ipp()) }
        }
    }


    /// Returns the items per page, page number, and number of pages
    pub fn page_data(&self, total_items: u32) -> (r: (u8, u32, u32))
        requires
            self.settings.items_per_page() > 0,
        ensures
            r.0 == self.settings.items_per_page(),
            r.2 == pages_for(total_items as nat, self.settings.items_per_page() as nat),
            r.1 == shown_page(self.cur_page as nat, r.2 as nat),
    {
        let ipp8 = self.settings.ipp();
        let ipp = ipp8 as u32;
        let num_pages = if total_items % ipp != 0 {
            proof {
                lemma_page_count_fits(total_items, ipp);
            }
            (total_items / ipp) + 1
        } else {
            total_items / ipp
        };
        let cur = if self.cur_page > num_pages {
            num_pages
        } else if self.cur_page == 0 {
            1
        } else {
            self.cur_page
        };
        (ipp8, cur, num_pages)
    }
}

impl Collate for Pagination {
    open spec fn items_per_page(&self) -> u8 {
        self.ipp
    }

    open spec fn default_items_per_page() -> u8 {
        10
    }

    open spec fn relative_links() -> u8 {
        3
    }

    open spec fn absolute_links() -> u8 {
        3
    }

    open spec fn padding_links() -> u8 {
        4
    }

    open spec fn base_link() -> Seq<char> {
        BLOG_URL@
    }

    open spec fn fewest_items() -> u8 {
        5
    }

    open spec fn most_items() -> u8 {
        50
    }

    open spec fn current_class() -> Seq<char> {
        "v-collate-cur"@
    }

    fn new(ipp: u8) -> (r: Self) {
        Pagination { ipp }
    }

    fn ipp(&self) -> (r: u8) {
        self.ipp
    }

    fn default_ipp() -> (r: u8) {
        10
    }

    fn rel_links() -> (r: u8) {
        3
    }

    fn abs_links() -> (r: u8) {
        3
    }

    fn links_padding() -> (r: u8) {
        4
    }

    fn link_base() -> (r: &'static str) {
        BLOG_URL
    }

    fn min_ipp() -> (r: u8) {
        5
    }

    fn max_ipp() -> (r: u8) {
        50
    }

    // active is bootstrap's default
    fn current_link() -> (r: &'static str) {
        "v-collate-cur"
    }
}

} // verus!
