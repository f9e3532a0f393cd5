use vstd::prelude::*;

verus! {

/// `char::is_whitespace`: the Unicode White_Space characters.
pub open spec fn is_ws(c: char) -> bool {
    ('\u{9}' <= c && c <= '\u{d}') || c == ' ' || c == '\u{85}' || c == '\u{a0}' || c == '\u{1680}' || (
    '\u{2000}' <= c && c <= '\u{200a}') || c == '\u{2028}' || c == '\u{2029}' || c == '\u{202f}' || c
        == '\u{205f}' || c == '\u{3000}'
}

fn ws(c: char) -> (r: bool)
    ensures
        r == is_ws(c),
{
    ('\u{9}' <= c && c <= '\u{d}') || c == ' ' || c == '\u{85}' || c == '\u{a0}' || c == '\u{1680}' || (
    '\u{2000}' <= c && c <= '\u{200a}') || c == '\u{2028}' || c == '\u{2029}' || c == '\u{202f}' || c
        == '\u{205f}' || c == '\u{3000}'
}

/// The text without leading whitespace.
pub open spec fn trim_start(s: Seq<char>) -> Seq<char>
    decreases s.len(),
{
    if s.len() > 0 && is_ws(s[0]) {
        trim_start(s.drop_first())
    } else {
        s
    }
}

/// The text without trailing whitespace.
pub open spec fn trim_end(s: Seq<char>) -> Seq<char>
    decreases s.len(),
{
    if s.len() > 0 && is_ws(s.last()) {
        trim_end(s.drop_last())
    } else {
        s
    }
}

/// `str::trim`: the text without leading and trailing whitespace.
pub open spec fn trim(s: Seq<char>) -> Seq<char> {
    trim_end(trim_start(s))
}

/// The characters of a string.
pub fn chars_of(s: &str) -> (r: Vec<char>)
    ensures
        r@ == s@,
{
    let n = s.unicode_len();
    let mut r: Vec<char> = Vec::new();
    let mut i: usize = 0;
    while i < n
        invariant
            n == s@.len(),
            i <= n,
            r@ == s@.subrange(0, i as int),
        decreases n - i,
    {
        r.push(s.get_char(i));
        proof {
            assert(s@.subrange(0, i + 1) =~= s@.subrange(0, i as int).push(s@[i as int]));
        }
        i = i + 1;
    }
    proof {
        assert(s@.subrange(0, n as int) =~= s@);
    }
    r
}

/// The search pattern of a query: its trimmed text between `%` wildcards
/// (`format!("%{}%", q.trim())`).
pub open spec fn search_pattern(q: Seq<char>) -> Seq<char> {
    seq!['%'] + trim(q) + seq!['%']
}

/// The characters of the search pattern of `q`.
pub fn pattern_of(q: &str) -> (r: Vec<char>)
    ensures
        r@ == search_pattern(q@),
{
    let s = chars_of(q);
    let n = s.len();
    proof {
        assert(s@.subrange(0, n as int) =~= s@);
    }
    let mut lo: usize = 0;
    while lo < n && ws(s[lo])
        invariant
            n == s@.len(),
            lo <= n,
            trim_start(s@) == trim_start(s@.subrange(lo as int, n as int)),
        decreases n - lo,
    {
        proof {
            assert(s@.subrange(lo as int, n as int).drop_first() =~= s@.subrange(lo + 1, n as int));
        }
        lo = lo + 1;
    }
    proof {
        assert(s@.subrange(0, n as int) =~= s@);
    }
    let ghost u = s@.subrange(lo as int, n as int);
    assert(trim_start(s@) == u);
    let mut hi: usize = n;
    while hi > lo && ws(s[hi - 1])
        invariant
            n == s@.len(),
            lo <= hi <= n,
            u == s@.subrange(lo as int, n as int),
            trim_end(u) == trim_end(s@.subrange(lo as int, hi as int)),
        decreases hi - lo,
    {
        proof {
            assert(s@.subrange(lo as int, hi as int).drop_last() =~= s@.subrange(lo as int, hi - 1));
        }
        hi = hi - 1;
    }
    proof {
        assert(u.subrange(0, u.len() as int) =~= u);
    }
    let mut r: Vec<char> = Vec::new();
    r.push('%');
    let mut i: usize = lo;
    while i < hi
        invariant
            lo <= i <= hi,
            hi <= n,
            n == s@.len(),
            r@ == seq!['%'] + s@.subrange(lo as int, i as int),
        decreases hi - i,
    {
        r.push(s[i]);
        proof {
            assert(seq!['%'] + s@.subrange(lo as int, i + 1) =~= (seq!['%'] + s@.subrange(lo as int, i as int)).push(s@[i as int]));
        }
        i = i + 1;
    }
    r.push('%');
    proof {
        assert(trim(q@) == s@.subrange(lo as int, hi as int));
        assert(r@ =~= search_pattern(q@));
    }
    r
}

/// Letters compared without regard to ASCII case.
pub open spec fn eq_ci(a: char, b: char) -> bool {
    a == b || ('A' <= a && a <= 'Z' && (a as int) + 32 == b as int) || ('A' <= b && b <= 'Z' && (b as int) + 32
        == a as int)
}

fn eq_ci_exec(a: char, b: char) -> (r: bool)
    ensures
        r == eq_ci(a, b),
{
    let x = a as u32;
    let y = b as u32;
    x == y || (65 <= x && x <= 90 && x + 32 == y) || (65 <= y && y <= 90 && y + 32 == x)
}

/// `ILIKE`: whether the text from position `i` matches the pattern from
/// position `j`. `%` matches any run of characters, `_` any one character,
/// a backslash makes the next character literal, and letters match without
/// regard to ASCII case.
pub open spec fn like_at(t: Seq<char>, p: Seq<char>, i: int, j: int) -> bool
    decreases p.len() - j, t.len() - i,
{
    if i < 0 || j < 0 || i > t.len() || j > p.len() {
        false
    } else if j == p.len() {
        i == t.len()
    } else if p[j] == '%' {
        like_at(t, p, i, j + 1) || (i < t.len() && like_at(t, p, i + 1, j))
    } else if p[j] == '\\' && j + 1 < p.len() {
        i < t.len() && eq_ci(t[i], p[j + 1]) && like_at(t, p, i + 1, j + 2)
    } else if p[j] == '_' {
        i < t.len() && like_at(t, p, i + 1, j + 1)
    } else {
        i < t.len() && eq_ci(t[i], p[j]) && like_at(t, p, i + 1, j + 1)
    }
}

/// The whole text matches the whole pattern.
pub open spec fn ilike(t: Seq<char>, p: Seq<char>) -> bool {
    like_at(t, p, 0, 0)
}

/// One cell of the matching table: whether the text from `ii` matches the
/// pattern from `jj`, given the cells already known.
fn like_cell(t: &Vec<char>, p: &Vec<char>, ii: usize, jj: usize, below: bool, c1: &Vec<bool>, c2: &Vec<bool>) -> (r: bool)
    requires
        jj < p@.len(),
        ii <= t@.len(),
        c1@.len() == t@.len() + 1,
        c2@.len() == t@.len() + 1,
        forall|x: int| 0 <= x <= t@.len() ==> c1@[x] == like_at(t@, p@, x, jj + 1),
        jj + 2 <= p@.len() ==> forall|x: int| 0 <= x <= t@.len() ==> c2@[x] == like_at(t@, p@, x, jj + 2),
        ii < t@.len() ==> below == like_at(t@, p@, ii + 1, jj as int),
    ensures
        r == like_at(t@, p@, ii as int, jj as int),
{
    let n = t.len();
    let m = p.len();
    let pc = p[jj];
    if pc == '%' {
        c1[ii] || (ii < n && below)
    } else if pc == '\\' && jj + 1 < m {
        ii < n && eq_ci_exec(t[ii], p[jj + 1]) && c2[ii + 1]
    } else if pc == '_' {
        ii < n && c1[ii + 1]
    } else {
        ii < n && eq_ci_exec(t[ii], pc) && c1[ii + 1]
    }
}

/// `n + 1` copies of `v`.
fn column(n: usize, v: bool) -> (r: Vec<bool>)
    ensures
        r@.len() == n + 1,
        forall|x: int| 0 <= x <= n ==> r@[x] == v,
{
    let mut r: Vec<bool> = Vec::new();
    r.push(v);
    let mut k: usize = 0;
    while k < n
        invariant
            k <= n,
            r@.len() == k + 1,
            forall|x: int| 0 <= x <= k ==> r@[x] == v,
        decreases n - k,
    {
        r.push(v);
        k = k + 1;
    }
    r
}

/// Whether the text matches the pattern (`t ILIKE p`).
pub fn like_match(t: &Vec<char>, p: &Vec<char>) -> (r: bool)
    ensures
        r == ilike(t@, p@),
{
    let n = t.len();
    let m = p.len();
    // Column j of the matching table (`c1`) and column j + 1 (`c2`).
    let mut c1 = column(n, false);
    c1.set(n, true);
    let mut c2 = column(n, false);
    let mut j: usize = m;
    while j > 0
        invariant
            n == t@.len(),
            m == p@.len(),
            j <= m,
            c1@.len() == n + 1,
            c2@.len() == n + 1,
            forall|x: int| 0 <= x <= n ==> c1@[x] == like_at(t@, p@, x, j as int),
            j + 1 <= m ==> forall|x: int| 0 <= x <= n ==> c2@[x] == like_at(t@, p@, x, j + 1),
        decreases j,
    {
        let jj = j - 1;
        let mut c0 = column(n, false);
        let last = like_cell(t, p, n, jj, false, &c1, &c2);
        c0.set(n, last);
        let mut i: usize = n;
        while i > 0
            invariant
                n == t@.len(),
                m == p@.len(),
                jj < m,
                j == jj + 1,
                i <= n,
                c0@.len() == n + 1,
                c1@.len() == n + 1,
                c2@.len() == n + 1,
                forall|x: int| 0 <= x <= n ==> c1@[x] == like_at(t@, p@, x, j as int),
                j + 1 <= m ==> forall|x: int| 0 <= x <= n ==> c2@[x] == like_at(t@, p@, x, j + 1),
                forall|x: int| i <= x <= n ==> c0@[x] == like_at(t@, p@, x, jj as int),
            decreases i,
        {
            let ii = i - 1;
            let below = c0[ii + 1];
            let v = like_cell(t, p, ii, jj, below, &c1, &c2);
            c0.set(ii, v);
            i = ii;
        }
        c2 = c1;
        c1 = c0;
        j = jj;
    }
    c1[0]
}

} // verus!

verus! {

/// The pattern of an optional search query.
pub open spec fn opt_search_pattern(q: Option<Seq<char>>) -> Option<Seq<char>> {
    match q {
        Some(s) => Some(search_pattern(s)),
        None => None,
    }
}

pub open spec fn opt_chars(v: Option<Vec<char>>) -> Option<Seq<char>> {
    match v {
        Some(x) => Some(x@),
        None => None,
    }
}

/// The pattern of an optional search query, computed once per listing.
pub fn opt_pattern_of(q: &Option<String>) -> (r: Option<Vec<char>>)
    ensures
        opt_chars(r) == opt_search_pattern(crate::moderation::opt_view(*q)),
{
    match q {
        Some(s) => Some(pattern_of(s.as_str())),
        None => None,
    }
}

/// Whether a text matches a search pattern.
pub fn text_matches(text: &str, pat: &Vec<char>) -> (r: bool)
    ensures
        r == ilike(text@, pat@),
{
    let t = chars_of(text);
    like_match(&t, pat)
}

} // verus!

verus! {

proof fn lemma_final_percent(t: Seq<char>, p: Seq<char>, i: int)
    requires
        p.len() >= 1,
        p[p.len() - 1] == '%',
        0 <= i <= t.len(),
    ensures
        like_at(t, p, i, p.len() - 1),
    decreases t.len() - i,
{
    let j = p.len() - 1;
    assert(like_at(t, p, i, j + 1) == (i == t.len()));
    if i < t.len() {
        lemma_final_percent(t, p, i + 1);
        assert(like_at(t, p, i + 1, j));
    }
}

/// A search whose query is blank (empty after trimming) admits every text:
/// its pattern is `%%`.
pub proof fn law_blank_search_matches_all(q: Seq<char>, t: Seq<char>)
    requires
        trim(q).len() == 0,
    ensures
        ilike(t, search_pattern(q)),
{
    let p = search_pattern(q);
    assert(p =~= seq!['%', '%']);
    assert(p.len() == 2);
    assert(p[1] == '%');
    lemma_final_percent(t, p, 0);
    assert(p[0] == '%');
    assert(like_at(t, p, 0, 1));
}

/// A character that a pattern takes literally.
pub open spec fn plain(c: char) -> bool {
    c != '%' && c != '_' && c != '\\'
}

/// The pattern holds, from position 1, `m` plain characters that the text
/// holds from position `at`.
pub open spec fn literal_at(t: Seq<char>, p: Seq<char>, at: int, m: int) -> bool {
    forall|x: int| 0 <= x < m ==> plain(#[trigger] p[x + 1]) && t[at + x] == p[x + 1]
}

/// The search is a substring search: a title that holds the trimmed query
/// literally (no `%`, `_` or backslash in it) matches.
pub proof fn law_literal_substring_matches(q: Seq<char>, t: Seq<char>, at: int)
    requires
        0 <= at,
        at + trim(q).len() <= t.len(),
        t.subrange(at, at + trim(q).len()) == trim(q),
        forall|k: int| 0 <= k < trim(q).len() ==> plain(#[trigger] trim(q)[k]),
    ensures
        ilike(t, search_pattern(q)),
{
    let p = search_pattern(q);
    let w = trim(q);
    let m: int = w.len() as int;
    assert(p.len() == m + 2);
    assert(p[0] == '%');
    assert(p[m + 1] == '%');
    assert forall|x: int| 0 <= x < m implies plain(#[trigger] p[x + 1]) && t[at + x] == p[x + 1] by {
        assert(p[x + 1] == w[x]);
        assert(t.subrange(at, at + m)[x] == t[at + x]);
    }
    lemma_final_percent(t, p, at + m);
    lemma_literal_steps(t, p, at, m, m);
    lemma_percent_from(t, p, at, at);
}

proof fn lemma_literal_steps(t: Seq<char>, p: Seq<char>, at: int, m: int, k: int)
    requires
        p.len() == m + 2,
        0 <= at,
        at + m <= t.len(),
        0 <= k <= m,
        literal_at(t, p, at, m),
        like_at(t, p, at + m, m + 1),
    ensures
        like_at(t, p, at + m - k, m + 1 - k),
    decreases k,
{
    if k > 0 {
        lemma_literal_steps(t, p, at, m, k - 1);
        let x = m - k;
        assert(plain(p[x + 1]) && t[at + x] == p[x + 1]);
        assert(eq_ci(t[at + x], p[x + 1]));
        assert(like_at(t, p, at + x + 1, x + 2));
    }
}

proof fn lemma_percent_from(t: Seq<char>, p: Seq<char>, at: int, i: int)
    requires
        p.len() >= 2,
        p[0] == '%',
        0 <= i <= at <= t.len(),
        like_at(t, p, at, 1),
    ensures
        like_at(t, p, at - i, 0),
    decreases i,
{
    if i > 0 {
        lemma_percent_from(t, p, at, i - 1);
    }
}

} // verus!
