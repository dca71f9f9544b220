use vstd::prelude::*;

verus! {

/// Unicode white space (the `White_Space` property, as `char::is_whitespace` uses it).
pub open spec fn is_ws(c: char) -> bool {
    ('\u{9}' <= c && c <= '\u{d}') || c == ' ' || c == '\u{85}' || c == '\u{a0}' || c
        == '\u{1680}' || ('\u{2000}' <= c && c <= '\u{200a}') || c == '\u{2028}' || c
        == '\u{2029}' || c == '\u{202f}' || c == '\u{205f}' || c == '\u{3000}'
}

pub open spec fn is_ident_char(c: char) -> bool {
    ('a' <= c && c <= 'z') || ('A' <= c && c <= 'Z') || ('0' <= c && c <= '9') || c == '_' || c == '$'
}

/// The first position in `[i, hi)` that holds no whitespace, or `hi`.
pub open spec fn skip_ws(s: Seq<char>, i: int, hi: int) -> int
    decreases hi - i,
{
    if i >= hi {
        hi
    } else if is_ws(s[i]) {
        skip_ws(s, i + 1, hi)
    } else {
        i
    }
}

/// The end of `[lo, j)` once trailing whitespace is cut off.
pub open spec fn trim_end(s: Seq<char>, lo: int, j: int) -> int
    decreases j - lo,
{
    if j <= lo {
        lo
    } else if is_ws(s[j - 1]) {
        trim_end(s, lo, j - 1)
    } else {
        j
    }
}

/// The first position in `[i, hi)` that holds `c`, or `hi`.
pub open spec fn find_char(s: Seq<char>, i: int, hi: int, c: char) -> int
    decreases hi - i,
{
    if i >= hi {
        hi
    } else if s[i] == c {
        i
    } else {
        find_char(s, i + 1, hi, c)
    }
}

/// The first comma in `[i, hi)` that stands outside any `<...>`, or `hi`, where the
/// scan starts `d` angle brackets deep (an unmatched `>` is ignored).
pub open spec fn top_comma(s: Seq<char>, i: int, hi: int, d: nat) -> int
    decreases hi - i,
{
    if i >= hi {
        hi
    } else if s[i] == ',' && d == 0 {
        i
    } else if s[i] == '<' {
        top_comma(s, i + 1, hi, d + 1)
    } else if s[i] == '>' && d > 0 {
        top_comma(s, i + 1, hi, (d - 1) as nat)
    } else {
        top_comma(s, i + 1, hi, d)
    }
}

/// The position just after the `>` that closes a `<...>` opened `d` deep before `i`,
/// or `hi` when none does.
pub open spec fn angle_close(s: Seq<char>, i: int, hi: int, d: nat) -> int
    decreases hi - i,
{
    if i >= hi {
        hi
    } else if s[i] == '>' {
        if d <= 1 {
            i + 1
        } else {
            angle_close(s, i + 1, hi, (d - 1) as nat)
        }
    } else if s[i] == '<' {
        angle_close(s, i + 1, hi, d + 1)
    } else {
        angle_close(s, i + 1, hi, d)
    }
}

/// The first position in `[i, hi)` that does not hold `c`, or `hi`.
pub open spec fn skip_char(s: Seq<char>, i: int, hi: int, c: char) -> int
    decreases hi - i,
{
    if i >= hi {
        hi
    } else if s[i] == c {
        skip_char(s, i + 1, hi, c)
    } else {
        i
    }
}

/// The end of the run of identifier characters that starts at `i`, within `hi`.
pub open spec fn ident_end(s: Seq<char>, i: int, hi: int) -> int
    decreases hi - i,
{
    if i >= hi {
        hi
    } else if is_ident_char(s[i]) {
        ident_end(s, i + 1, hi)
    } else {
        i
    }
}

/// The end of the run of non-whitespace characters that starts at `i`, within `hi`.
pub open spec fn word_end(s: Seq<char>, i: int, hi: int) -> int
    decreases hi - i,
{
    if i >= hi {
        hi
    } else if is_ws(s[i]) {
        i
    } else {
        word_end(s, i + 1, hi)
    }
}

/// The last position in `[lo, j)` that holds whitespace, or `lo - 1`.
pub open spec fn last_ws(s: Seq<char>, lo: int, j: int) -> int
    decreases j - lo,
{
    if j <= lo {
        lo - 1
    } else if is_ws(s[j - 1]) {
        j - 1
    } else {
        last_ws(s, lo, j - 1)
    }
}

/// Whether `[lo, hi)` of `s` is exactly `w`.
pub open spec fn span_is(s: Seq<char>, lo: int, hi: int, w: Seq<char>) -> bool {
    s.subrange(lo, hi) == w
}

pub fn ws_char(c: char) -> (r: bool)
    ensures
        r == is_ws(c),
{
    ('\u{9}' <= c && c <= '\u{d}') || c == ' ' || c == '\u{85}' || c == '\u{a0}' || c
        == '\u{1680}' || ('\u{2000}' <= c && c <= '\u{200a}') || c == '\u{2028}' || c
        == '\u{2029}' || c == '\u{202f}' || c == '\u{205f}' || c == '\u{3000}'
}

pub fn ident_char(c: char) -> (r: bool)
    ensures
        r == is_ident_char(c),
{
    ('a' <= c && c <= 'z') || ('A' <= c && c <= 'Z') || ('0' <= c && c <= '9') || c == '_' || c
        == '$'
}

pub fn skip_ws_exec(v: &Vec<char>, i: usize, hi: usize) -> (r: usize)
    requires
        i <= hi <= v@.len(),
    ensures
        r == skip_ws(v@, i as int, hi as int),
        i <= r <= hi,
{
    let mut k = i;
    while k < hi && ws_char(v[k])
        invariant
            i <= k <= hi <= v@.len(),
            skip_ws(v@, k as int, hi as int) == skip_ws(v@, i as int, hi as int),
        decreases hi - k,
    {
        k = k + 1;
    }
    k
}

pub fn trim_end_exec(v: &Vec<char>, lo: usize, j: usize) -> (r: usize)
    requires
        lo <= j <= v@.len(),
    ensures
        r == trim_end(v@, lo as int, j as int),
        lo <= r <= j,
{
    let mut k = j;
    while k > lo && ws_char(v[k - 1])
        invariant
            lo <= k <= j <= v@.len(),
            trim_end(v@, lo as int, k as int) == trim_end(v@, lo as int, j as int),
        decreases k,
    {
        k = k - 1;
    }
    k
}

pub fn find_char_exec(v: &Vec<char>, i: usize, hi: usize, c: char) -> (r: usize)
    requires
        i <= hi <= v@.len(),
    ensures
        r == find_char(v@, i as int, hi as int, c),
        i <= r <= hi,
{
    let mut k = i;
    while k < hi && v[k] != c
        invariant
            i <= k <= hi <= v@.len(),
            find_char(v@, k as int, hi as int, c) == find_char(v@, i as int, hi as int, c),
        decreases hi - k,
    {
        k = k + 1;
    }
    k
}

pub fn top_comma_exec(v: &Vec<char>, i: usize, hi: usize) -> (r: usize)
    requires
        i <= hi <= v@.len(),
    ensures
        r == top_comma(v@, i as int, hi as int, 0),
        i <= r <= hi,
{
    let mut k = i;
    let mut d: usize = 0;
    while k < hi && !(v[k] == ',' && d == 0)
        invariant
            i <= k <= hi <= v@.len(),
            d <= k - i,
            top_comma(v@, k as int, hi as int, d as nat) == top_comma(v@, i as int, hi as int, 0),
        decreases hi - k,
    {
        if v[k] == '<' {
            d = d + 1;
        } else if v[k] == '>' && d > 0 {
            d = d - 1;
        }
        k = k + 1;
    }
    k
}

pub fn angle_close_exec(v: &Vec<char>, i: usize, hi: usize) -> (r: usize)
    requires
        i <= hi <= v@.len(),
    ensures
        r == angle_close(v@, i as int, hi as int, 1),
        i <= r <= hi,
{
    let mut k = i;
    let mut e: usize = 0;
    while k < hi
        invariant
            i <= k <= hi <= v@.len(),
            e <= k - i,
            angle_close(v@, k as int, hi as int, (e + 1) as nat) == angle_close(v@, i as int, hi as int, 1),
        decreases hi - k,
    {
        if v[k] == '>' {
            if e == 0 {
                return k + 1;
            }
            e = e - 1;
        } else if v[k] == '<' {
            e = e + 1;
        }
        k = k + 1;
    }
    k
}

pub fn skip_char_exec(v: &Vec<char>, i: usize, hi: usize, c: char) -> (r: usize)
    requires
        i <= hi <= v@.len(),
    ensures
        r == skip_char(v@, i as int, hi as int, c),
        i <= r <= hi,
{
    let mut k = i;
    while k < hi && v[k] == c
        invariant
            i <= k <= hi <= v@.len(),
            skip_char(v@, k as int, hi as int, c) == skip_char(v@, i as int, hi as int, c),
        decreases hi - k,
    {
        k = k + 1;
    }
    k
}

pub fn ident_end_exec(v: &Vec<char>, i: usize, hi: usize) -> (r: usize)
    requires
        i <= hi <= v@.len(),
    ensures
        r == ident_end(v@, i as int, hi as int),
        i <= r <= hi,
{
    let mut k = i;
    while k < hi && ident_char(v[k])
        invariant
            i <= k <= hi <= v@.len(),
            ident_end(v@, k as int, hi as int) == ident_end(v@, i as int, hi as int),
        decreases hi - k,
    {
        k = k + 1;
    }
    k
}

pub fn word_end_exec(v: &Vec<char>, i: usize, hi: usize) -> (r: usize)
    requires
        i <= hi <= v@.len(),
    ensures
        r == word_end(v@, i as int, hi as int),
        i <= r <= hi,
{
    let mut k = i;
    while k < hi && !ws_char(v[k])
        invariant
            i <= k <= hi <= v@.len(),
            word_end(v@, k as int, hi as int) == word_end(v@, i as int, hi as int),
        decreases hi - k,
    {
        k = k + 1;
    }
    k
}

/// Returns `None` where the span holds no whitespace, else its last whitespace position.
pub fn last_ws_exec(v: &Vec<char>, lo: usize, j: usize) -> (r: Option<usize>)
    requires
        lo <= j <= v@.len(),
    ensures
        r is None <==> last_ws(v@, lo as int, j as int) == lo - 1,
        r is Some ==> r->0 == last_ws(v@, lo as int, j as int) && lo <= r->0 < j,
{
    let mut k = j;
    while k > lo && !ws_char(v[k - 1])
        invariant
            lo <= k <= j <= v@.len(),
            last_ws(v@, lo as int, k as int) == last_ws(v@, lo as int, j as int),
        decreases k,
    {
        k = k - 1;
    }
    if k > lo {
        Some(k - 1)
    } else {
        None
    }
}

/// Whether `[lo, hi)` of `v` is exactly the text `w`.
pub fn span_is_exec(v: &Vec<char>, lo: usize, hi: usize, w: &str) -> (r: bool)
    requires
        lo <= hi <= v@.len(),
    ensures
        r == span_is(v@, lo as int, hi as int, w@),
{
    let wv = crate::text::chars_of(w);
    span_is_chars(v, lo, hi, &wv)
}

/// Whether `[lo, hi)` of `v` holds exactly the characters of `wv`.
pub fn span_is_chars(v: &Vec<char>, lo: usize, hi: usize, wv: &Vec<char>) -> (r: bool)
    requires
        lo <= hi <= v@.len(),
    ensures
        r == span_is(v@, lo as int, hi as int, wv@),
{
    if hi - lo != wv.len() {
        return false;
    }
    let mut k: usize = 0;
    while k < wv.len()
        invariant
            lo <= hi <= v@.len(),
            hi - lo == wv@.len(),
            k <= wv@.len(),
            forall|m: int| 0 <= m < k ==> v@[lo + m] == wv@[m],
        decreases wv@.len() - k,
    {
        if v[lo + k] != wv[k] {
            assert(v@.subrange(lo as int, hi as int)[k as int] != wv@[k as int]);
            return false;
        }
        k = k + 1;
    }
    assert(v@.subrange(lo as int, hi as int) =~= wv@);
    true
}

/// A copy of `[lo, hi)` of `v` as a string.
pub fn span_string(v: &Vec<char>, lo: usize, hi: usize) -> (r: String)
    requires
        lo <= hi <= v@.len(),
    ensures
        r@ == v@.subrange(lo as int, hi as int),
{
    let part = span_chars(v, lo, hi);
    crate::text::string_of(&part)
}

/// A copy of `[lo, hi)` of `v`.
pub fn span_chars(v: &Vec<char>, lo: usize, hi: usize) -> (r: Vec<char>)
    requires
        lo <= hi <= v@.len(),
    ensures
        r@ == v@.subrange(lo as int, hi as int),
{
    let mut out: Vec<char> = Vec::new();
    let mut k = lo;
    while k < hi
        invariant
            lo <= k <= hi <= v@.len(),
            out@ == v@.subrange(lo as int, k as int),
        decreases hi - k,
    {
        out.push(v[k]);
        assert(out@ =~= v@.subrange(lo as int, k + 1));
        k = k + 1;
    }
    out
}

} // verus!
