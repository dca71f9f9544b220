use vstd::prelude::*;
use crate::comment::{Tag, TagV, tags_view};
use crate::model::{Method, MethodV, Param, ParamV, params_view};
use crate::scan::{
    find_char, find_char_exec, ident_end, ident_end_exec, last_ws, last_ws_exec, skip_ws,
    skip_ws_exec, span_is_chars, span_is_exec, span_string, trim_end,
    trim_end_exec, word_end, word_end_exec, top_comma, top_comma_exec, angle_close, angle_close_exec,
};

verus! {

pub open spec fn is_visibility(w: Seq<char>) -> bool {
    w == "public"@ || w == "private"@ || w == "protected"@
}

pub open spec fn is_modifier(w: Seq<char>) -> bool {
    w == "static"@ || w == "final"@ || w == "abstract"@ || w == "synchronized"@ || w
        == "native"@ || w == "default"@ || w == "strictfp"@
}

pub open spec fn is_type_kind(w: Seq<char>) -> bool {
    w == "class"@ || w == "interface"@ || w == "enum"@
}

/// Words that open a statement and so never start a return type.
pub open spec fn is_statement_word(w: Seq<char>) -> bool {
    w == "return"@ || w == "new"@ || w == "throw"@ || w == "else"@ || w == "case"@
}

/// Where `[lo, hi)` goes on after a leading visibility word (`lo` when it has none).
pub open spec fn vis_end(s: Seq<char>, lo: int, hi: int) -> int {
    let we = word_end(s, lo, hi);
    if is_visibility(s.subrange(lo, we)) {
        skip_ws(s, we, hi)
    } else {
        lo
    }
}

/// The visibility word that opens `[lo, hi)`, or empty (package access).
pub open spec fn visibility(s: Seq<char>, lo: int, hi: int) -> Seq<char> {
    let we = word_end(s, lo, hi);
    if is_visibility(s.subrange(lo, we)) {
        s.subrange(lo, we)
    } else {
        Seq::empty()
    }
}

/// Where `[i, hi)` goes on after its leading modifier words.
pub open spec fn mods_end(s: Seq<char>, i: int, hi: int) -> int
    decreases hi - i,
{
    let we = word_end(s, i, hi);
    let nx = skip_ws(s, we, hi);
    if i < nx && nx <= hi && is_modifier(s.subrange(i, we)) {
        mods_end(s, nx, hi)
    } else {
        i
    }
}

/// Where `[i, hi)` goes on after its leading annotations (words that start with `@`).
pub open spec fn ann_end(s: Seq<char>, i: int, hi: int) -> int
    decreases hi - i,
{
    let nx = skip_ws(s, word_end(s, i, hi), hi);
    if i < nx && nx <= hi && s[i] == '@' {
        ann_end(s, nx, hi)
    } else {
        i
    }
}

/// Where `[i, hi)` goes on after a leading type-parameter list `<...>` (`i` when it has none).
pub open spec fn type_params_end(s: Seq<char>, i: int, hi: int) -> int {
    if i < hi && s[i] == '<' {
        skip_ws(s, angle_close(s, i + 1, hi, 1), hi)
    } else {
        i
    }
}

/// The argument of a `package` or `import` statement whose keyword ends at `we`:
/// the rest of the line, trimmed, without a final `;`.
pub open spec fn stmt_arg(s: Seq<char>, we: int, hi: int) -> Seq<char> {
    let a = skip_ws(s, we, hi);
    let e = if hi > a && s[hi - 1] == ';' { hi - 1 } else { hi };
    s.subrange(a, trim_end(s, a, e))
}

/// The name of the class, interface or enum that the trimmed line `[lo, hi)` declares.
pub open spec fn class_decl(s: Seq<char>, lo: int, hi: int) -> Option<Seq<char>> {
    let m = mods_end(s, vis_end(s, lo, hi), hi);
    let ke = word_end(s, m, hi);
    let ns = skip_ws(s, ke, hi);
    let ne = ident_end(s, ns, hi);
    if is_type_kind(s.subrange(m, ke)) && ns < ne {
        Some(s.subrange(ns, ne))
    } else {
        None
    }
}

/// The detail of the first `@param` note for `name`, or empty.
pub open spec fn lookup_from(tags: Seq<TagV>, name: Seq<char>, k: int) -> Seq<char>
    decreases tags.len() - k,
{
    if k < 0 || k >= tags.len() {
        Seq::empty()
    } else if tags[k].name == name {
        tags[k].detail
    } else {
        lookup_from(tags, name, k + 1)
    }
}

/// The parameter that the piece `[i, c)` of a parameter list declares: a type
/// (everything up to the last whitespace, kept as written, generic arguments and
/// array brackets included) and a name (the last word).
pub open spec fn param_piece(s: Seq<char>, i: int, c: int, tags: Seq<TagV>) -> Seq<ParamV> {
    let a = skip_ws(s, i, c);
    let e = trim_end(s, a, c);
    let w = last_ws(s, a, e);
    if w >= a {
        let name = s.subrange(w + 1, e);
        seq![
            ParamV {
                name,
                var_type: s.subrange(a, trim_end(s, a, w)),
                desc: lookup_from(tags, name, 0),
            },
        ]
    } else {
        Seq::empty()
    }
}

/// The parameters declared by the comma-separated list `[i, q)`, in order. Commas
/// inside `<...>` belong to a generic type and separate nothing.
pub open spec fn params_from(s: Seq<char>, i: int, q: int, tags: Seq<TagV>) -> Seq<ParamV>
    decreases q - i,
{
    let c = top_comma(s, i, q, 0);
    if c >= q || c < i {
        param_piece(s, i, q, tags)
    } else {
        param_piece(s, i, c, tags) + params_from(s, c + 1, q, tags)
    }
}

/// Positions that split a method header `[lo, hi)`: the `(`, the start of the return
/// type (after annotations, visibility, modifiers and type parameters), the last
/// whitespace before the name, and the end of the name.
pub open spec fn method_split(s: Seq<char>, lo: int, hi: int) -> (int, int, int, int) {
    let p = find_char(s, lo, hi, '(');
    let a = ann_end(s, lo, p);
    let m = type_params_end(s, mods_end(s, vis_end(s, a, p), p), p);
    let he = trim_end(s, m, p);
    (p, m, last_ws(s, m, he), he)
}

/// Whether the trimmed line `[lo, hi)` declares a method: before its first `(` it holds
/// no `=`, and (after annotations, visibility, modifiers and type parameters) a return type that starts with an
/// identifier character and no statement word, whitespace, then an identifier.
pub open spec fn is_method(s: Seq<char>, lo: int, hi: int) -> bool {
    let (p, m, w, he) = method_split(s, lo, hi);
    let te = trim_end(s, m, w);
    &&& p < hi
    &&& find_char(s, lo, p, '=') == p
    &&& m <= w
    &&& w + 1 < he
    &&& ident_end(s, w + 1, he) == he
    &&& m < te
    &&& ident_end(s, m, te) > m
    &&& !is_statement_word(s.subrange(m, ident_end(s, m, te)))
}

/// The method that the trimmed line `[lo, hi)` declares, documented by `desc` and `tags`.
pub open spec fn method_decl(
    s: Seq<char>,
    lo: int,
    hi: int,
    desc: Seq<char>,
    tags: Seq<TagV>,
) -> Option<MethodV> {
    if is_method(s, lo, hi) {
        let (p, m, w, he) = method_split(s, lo, hi);
        let q = find_char(s, p + 1, hi, ')');
        Some(
            MethodV {
                name: s.subrange(w + 1, he),
                privacy: visibility(s, ann_end(s, lo, p), p),
                description: desc,
                return_type: s.subrange(m, trim_end(s, m, w)),
                parameters: params_from(s, p + 1, q, tags),
            },
        )
    } else {
        None
    }
}

fn is_visibility_exec(v: &Vec<char>, lo: usize, hi: usize) -> (r: bool)
    requires
        lo <= hi <= v@.len(),
    ensures
        r == is_visibility(v@.subrange(lo as int, hi as int)),
{
    span_is_exec(v, lo, hi, "public") || span_is_exec(v, lo, hi, "private") || span_is_exec(
        v,
        lo,
        hi,
        "protected",
    )
}

fn is_modifier_exec(v: &Vec<char>, lo: usize, hi: usize) -> (r: bool)
    requires
        lo <= hi <= v@.len(),
    ensures
        r == is_modifier(v@.subrange(lo as int, hi as int)),
{
    span_is_exec(v, lo, hi, "static") || span_is_exec(v, lo, hi, "final") || span_is_exec(
        v,
        lo,
        hi,
        "abstract",
    ) || span_is_exec(v, lo, hi, "synchronized") || span_is_exec(v, lo, hi, "native")
        || span_is_exec(v, lo, hi, "default") || span_is_exec(v, lo, hi, "strictfp")
}

fn is_statement_word_exec(v: &Vec<char>, lo: usize, hi: usize) -> (r: bool)
    requires
        lo <= hi <= v@.len(),
    ensures
        r == is_statement_word(v@.subrange(lo as int, hi as int)),
{
    span_is_exec(v, lo, hi, "return") || span_is_exec(v, lo, hi, "new") || span_is_exec(
        v,
        lo,
        hi,
        "throw",
    ) || span_is_exec(v, lo, hi, "else") || span_is_exec(v, lo, hi, "case")
}

fn vis_end_exec(v: &Vec<char>, lo: usize, hi: usize) -> (r: usize)
    requires
        lo <= hi <= v@.len(),
    ensures
        r == vis_end(v@, lo as int, hi as int),
        lo <= r <= hi,
{
    let we = word_end_exec(v, lo, hi);
    if is_visibility_exec(v, lo, we) {
        skip_ws_exec(v, we, hi)
    } else {
        lo
    }
}

pub fn visibility_exec(v: &Vec<char>, lo: usize, hi: usize) -> (r: String)
    requires
        lo <= hi <= v@.len(),
    ensures
        r@ == visibility(v@, lo as int, hi as int),
{
    let we = word_end_exec(v, lo, hi);
    if is_visibility_exec(v, lo, we) {
        span_string(v, lo, we)
    } else {
        span_string(v, lo, lo)
    }
}

fn mods_end_exec(v: &Vec<char>, i: usize, hi: usize) -> (r: usize)
    requires
        i <= hi <= v@.len(),
    ensures
        r == mods_end(v@, i as int, hi as int),
        i <= r <= hi,
{
    let mut k = i;
    loop
        invariant
            i <= k <= hi <= v@.len(),
            mods_end(v@, k as int, hi as int) == mods_end(v@, i as int, hi as int),
        decreases hi - k,
    {
        let we = word_end_exec(v, k, hi);
        let nx = skip_ws_exec(v, we, hi);
        if k < nx && is_modifier_exec(v, k, we) {
            k = nx;
        } else {
            return k;
        }
    }
}

fn ann_end_exec(v: &Vec<char>, i: usize, hi: usize) -> (r: usize)
    requires
        i <= hi <= v@.len(),
    ensures
        r == ann_end(v@, i as int, hi as int),
        i <= r <= hi,
{
    let mut k = i;
    loop
        invariant
            i <= k <= hi <= v@.len(),
            ann_end(v@, k as int, hi as int) == ann_end(v@, i as int, hi as int),
        decreases hi - k,
    {
        let we = word_end_exec(v, k, hi);
        let nx = skip_ws_exec(v, we, hi);
        if k < nx && v[k] == '@' {
            k = nx;
        } else {
            return k;
        }
    }
}

/// The argument of a `package` or `import` statement whose keyword ends at `we`.
pub fn stmt_arg_exec(v: &Vec<char>, we: usize, hi: usize) -> (r: String)
    requires
        we <= hi <= v@.len(),
    ensures
        r@ == stmt_arg(v@, we as int, hi as int),
{
    let a = skip_ws_exec(v, we, hi);
    let e = if hi > a && v[hi - 1] == ';' {
        hi - 1
    } else {
        hi
    };
    let te = trim_end_exec(v, a, e);
    span_string(v, a, te)
}

/// The name of the class, interface or enum that the trimmed line `[lo, hi)` declares.
pub fn class_decl_exec(v: &Vec<char>, lo: usize, hi: usize) -> (r: Option<String>)
    requires
        lo <= hi <= v@.len(),
    ensures
        r is Some <==> class_decl(v@, lo as int, hi as int) is Some,
        r is Some ==> r->0@ == class_decl(v@, lo as int, hi as int)->0,
{
    let ve = vis_end_exec(v, lo, hi);
    let m = mods_end_exec(v, ve, hi);
    let ke = word_end_exec(v, m, hi);
    let ns = skip_ws_exec(v, ke, hi);
    let ne = ident_end_exec(v, ns, hi);
    let kind = span_is_exec(v, m, ke, "class") || span_is_exec(v, m, ke, "interface")
        || span_is_exec(v, m, ke, "enum");
    if kind && ns < ne {
        Some(span_string(v, ns, ne))
    } else {
        None
    }
}

fn lookup_exec(tags: &Vec<Tag>, v: &Vec<char>, lo: usize, hi: usize) -> (r: String)
    requires
        lo <= hi <= v@.len(),
    ensures
        r@ == lookup_from(tags_view(tags@), v@.subrange(lo as int, hi as int), 0),
{
    let ghost tv = tags_view(tags@);
    let ghost name = v@.subrange(lo as int, hi as int);
    let mut k: usize = 0;
    while k < tags.len()
        invariant
            k <= tags@.len(),
            tv == tags_view(tags@),
            lo <= hi <= v@.len(),
            name == v@.subrange(lo as int, hi as int),
            lookup_from(tv, name, k as int) == lookup_from(tv, name, 0),
        decreases tags@.len() - k,
    {
        let t = &tags[k];
        assert(tv[k as int] == t@);
        if span_is_chars(v, lo, hi, &t.name) {
            let d = &t.detail;
            let r = span_string(d, 0, d.len());
            assert(r@ =~= d@);
            return r;
        }
        k = k + 1;
    }
    String::new()
}

fn param_piece_exec(v: &Vec<char>, i: usize, c: usize, tags: &Vec<Tag>, out: &mut Vec<Param>)
    requires
        i <= c <= v@.len(),
    ensures
        params_view(final(out)@) == params_view(old(out)@) + param_piece(
            v@,
            i as int,
            c as int,
            tags_view(tags@),
        ),
{
    let a = skip_ws_exec(v, i, c);
    let e = trim_end_exec(v, a, c);
    let w = last_ws_exec(v, a, e);
    let ghost before = out@;
    match w {
        Some(w) => {
            let te = trim_end_exec(v, a, w);
            let p = Param {
                name: span_string(v, w + 1, e),
                var_type: span_string(v, a, te),
                desc: lookup_exec(tags, v, w + 1, e),
            };
            out.push(p);
            assert(params_view(out@) =~= params_view(before) + param_piece(
                v@,
                i as int,
                c as int,
                tags_view(tags@),
            ));
        },
        None => {
            assert(param_piece(v@, i as int, c as int, tags_view(tags@)) =~= Seq::empty());
            assert(params_view(out@) =~= params_view(before) + Seq::empty());
        },
    }
}

fn params_exec(v: &Vec<char>, start: usize, q: usize, tags: &Vec<Tag>) -> (r: Vec<Param>)
    requires
        start <= q <= v@.len(),
    ensures
        params_view(r@) == params_from(v@, start as int, q as int, tags_view(tags@)),
{
    let ghost tv = tags_view(tags@);
    let ghost total = params_from(v@, start as int, q as int, tv);
    let mut out: Vec<Param> = Vec::new();
    let mut i = start;
    let mut done = false;
    assert(params_view(out@) + total =~= total);
    while !done
        invariant
            start <= i <= q <= v@.len(),
            tv == tags_view(tags@),
            total == params_from(v@, start as int, q as int, tv),
            !done ==> params_view(out@) + params_from(v@, i as int, q as int, tv) == total,
            done ==> params_view(out@) == total,
        decreases q - i + (if done { 0int } else { 1int }),
    {
        let c = top_comma_exec(v, i, q);
        let ghost prev = params_view(out@);
        if c >= q {
            param_piece_exec(v, i, q, tags, &mut out);
            done = true;
        } else {
            param_piece_exec(v, i, c, tags, &mut out);
            assert(prev + params_from(v@, i as int, q as int, tv) =~= params_view(out@)
                + params_from(v@, c + 1, q as int, tv));
            i = c + 1;
        }
    }
    out
}

/// The method that the trimmed line `[lo, hi)` declares, documented by `desc` and `tags`.
pub fn method_decl_exec(
    v: &Vec<char>,
    lo: usize,
    hi: usize,
    desc: &Vec<char>,
    tags: &Vec<Tag>,
) -> (r: Option<Method>)
    requires
        lo <= hi <= v@.len(),
    ensures
        r is Some <==> method_decl(v@, lo as int, hi as int, desc@, tags_view(tags@)) is Some,
        r is Some ==> r->0@ == method_decl(v@, lo as int, hi as int, desc@, tags_view(tags@))->0,
{
    let p = find_char_exec(v, lo, hi, '(');
    if p >= hi {
        return None;
    }
    if find_char_exec(v, lo, p, '=') != p {
        return None;
    }
    let a = ann_end_exec(v, lo, p);
    let ve = vis_end_exec(v, a, p);
    let m0 = mods_end_exec(v, ve, p);
    let m = if m0 < p && v[m0] == '<' {
        let c = angle_close_exec(v, m0 + 1, p);
        skip_ws_exec(v, c, p)
    } else {
        m0
    };
    let he = trim_end_exec(v, m, p);
    let w = match last_ws_exec(v, m, he) {
        Some(w) => w,
        None => {
            return None;
        },
    };
    if w + 1 >= he || ident_end_exec(v, w + 1, he) != he {
        return None;
    }
    let te = trim_end_exec(v, m, w);
    if m >= te {
        return None;
    }
    let ie = ident_end_exec(v, m, te);
    if ie <= m || is_statement_word_exec(v, m, ie) {
        return None;
    }
    let q = find_char_exec(v, p + 1, hi, ')');
    let parameters = params_exec(v, p + 1, q, tags);
    let description = span_string(desc, 0, desc.len());
    assert(description@ =~= desc@);
    let r = Method {
        name: span_string(v, w + 1, he),
        privacy: visibility_exec(v, a, p),
        description,
        return_type: span_string(v, m, te),
        parameters,
    };
    assert(m == type_params_end(v@, m0 as int, p as int));
    assert(is_method(v@, lo as int, hi as int));
    assert(method_split(v@, lo as int, hi as int) == (p as int, m as int, w as int, he as int));
    Some(r)
}

} // verus!
