use vstd::prelude::*;
use crate::comment::TagV;
use crate::decl::{
    is_visibility, lookup_from, method_decl, param_piece, params_from,
};
use crate::parse::{StateV, run, step, trim_line};
use crate::scan::{find_char, is_ws, skip_ws, trim_end, word_end};

verus! {

/// `r` starts with `p`.
pub open spec fn extends<A>(r: Seq<A>, p: Seq<A>) -> bool {
    p.len() <= r.len() && r.subrange(0, p.len() as int) == p
}

proof fn lemma_skip_ws_shape(s: Seq<char>, i: int, hi: int)
    requires
        0 <= i <= hi <= s.len(),
    ensures
        i <= skip_ws(s, i, hi) <= hi,
        forall|j: int| i <= j < skip_ws(s, i, hi) ==> is_ws(s[j]),
        skip_ws(s, i, hi) < hi ==> !is_ws(s[skip_ws(s, i, hi)]),
    decreases hi - i,
{
    if i < hi && is_ws(s[i]) {
        lemma_skip_ws_shape(s, i + 1, hi);
    }
}

proof fn lemma_trim_end_shape(s: Seq<char>, lo: int, j: int)
    requires
        0 <= lo <= j <= s.len(),
    ensures
        lo <= trim_end(s, lo, j) <= j,
        forall|k: int| trim_end(s, lo, j) <= k < j ==> is_ws(s[k]),
        trim_end(s, lo, j) > lo ==> !is_ws(s[trim_end(s, lo, j) - 1]),
    decreases j - lo,
{
    if j > lo && is_ws(s[j - 1]) {
        lemma_trim_end_shape(s, lo, j - 1);
    }
}

proof fn lemma_word_end_bounds(s: Seq<char>, i: int, hi: int)
    requires
        i <= hi,
    ensures
        i <= word_end(s, i, hi) <= hi,
    decreases hi - i,
{
    if i < hi && !is_ws(s[i]) {
        lemma_word_end_bounds(s, i + 1, hi);
    }
}

/// Whitespace around a line does not change what it is read as: padding a line on
/// either side with whitespace leaves its trimmed text, and so the parse step, the same.
pub proof fn lemma_whitespace_idempotent(st: StateV, l: Seq<char>, a: Seq<char>, b: Seq<char>)
    requires
        forall|i: int| 0 <= i < a.len() ==> is_ws(#[trigger] a[i]),
        forall|i: int| 0 <= i < b.len() ==> is_ws(#[trigger] b[i]),
    ensures
        trim_line(a + l + b) == trim_line(l),
        step(st, a + l + b) == step(st, l),
{
    let x = a + l + b;
    let n = x.len() as int;
    let m = l.len() as int;
    let al = a.len() as int;
    assert forall|k: int| 0 <= k < n implies x[k] == (if k < al { a[k] } else if k < al + m {
        l[k - al]
    } else {
        b[k - al - m]
    }) by {}
    let lx = skip_ws(x, 0, n);
    let hx = trim_end(x, lx, n);
    let ll = skip_ws(l, 0, m);
    let hl = trim_end(l, ll, m);
    lemma_skip_ws_shape(x, 0, n);
    lemma_skip_ws_shape(l, 0, m);
    lemma_trim_end_shape(x, lx, n);
    lemma_trim_end_shape(l, ll, m);
    if ll < m {
        assert(!is_ws(x[al + ll]));
        if lx < al + ll {
            assert(is_ws(x[lx]));
        }
        assert(lx == al + ll);
        assert(hl > ll);
        assert(!is_ws(x[al + hl - 1]));
        if hx > al + hl {
            assert(is_ws(x[hx - 1]));
        }
        assert(hx == al + hl);
        assert(x.subrange(lx, hx) =~= l.subrange(ll, hl));
    } else {
        if lx < n {
            assert(is_ws(x[lx]));
        }
        assert(x.subrange(lx, hx) =~= l.subrange(ll, hl));
    }
}

/// One line never removes or reorders the methods or dependencies already read:
/// those after the step start with those before.
pub proof fn lemma_step_extends(st: StateV, l: Seq<char>)
    ensures
        extends(step(st, l).class.methods, st.class.methods),
        extends(step(st, l).class.dependencies, st.class.dependencies),
{
    let r = step(st, l);
    assert(r.class.methods.subrange(0, st.class.methods.len() as int) =~= st.class.methods);
    assert(r.class.dependencies.subrange(0, st.class.dependencies.len() as int)
        =~= st.class.dependencies);
}

/// Methods and dependencies come out in source order: whatever the lines from
/// position `i` on hold, the records read before stay, in order, at the front.
pub proof fn lemma_source_order(s: Seq<char>, i: int, st: StateV)
    ensures
        extends(run(s, i, st).class.methods, st.class.methods),
        extends(run(s, i, st).class.dependencies, st.class.dependencies),
    decreases s.len() - i,
{
    if i < 0 || i > s.len() {
        assert(st.class.methods.subrange(0, st.class.methods.len() as int) =~= st.class.methods);
        assert(st.class.dependencies.subrange(0, st.class.dependencies.len() as int)
            =~= st.class.dependencies);
    } else {
        let e = find_char(s, i, s.len() as int, '\n');
        let next = step(st, s.subrange(i, e));
        lemma_step_extends(st, s.subrange(i, e));
        if e >= s.len() || e < i {
        } else {
            lemma_source_order(s, e + 1, next);
            let r = run(s, e + 1, next);
            assert(r.class.methods.subrange(0, st.class.methods.len() as int) =~= r.class.methods.subrange(
                0,
                next.class.methods.len() as int,
            ).subrange(0, st.class.methods.len() as int));
            assert(r.class.dependencies.subrange(0, st.class.dependencies.len() as int)
                =~= r.class.dependencies.subrange(0, next.class.dependencies.len() as int).subrange(
                0,
                st.class.dependencies.len() as int,
            ));
        }
    }
}

/// An `import` line outside a comment adds its dependency at the end, even one
/// already listed.
pub proof fn lemma_import_appends(st: StateV, l: Seq<char>)
    requires
        !st.open,
        trim_line(l).len() > 0,
        trim_line(l).subrange(0, word_end(trim_line(l), 0, trim_line(l).len() as int))
            == "import"@,
    ensures
        step(st, l).class.dependencies == st.class.dependencies.push(
            crate::decl::stmt_arg(
                trim_line(l),
                word_end(trim_line(l), 0, trim_line(l).len() as int),
                trim_line(l).len() as int,
            ),
        ),
{
    let t = trim_line(l);
    let we = word_end(t, 0, t.len() as int);
    lemma_word_end_bounds(t, 0, t.len() as int);
    reveal_strlit("import");
    reveal_strlit("package");
    assert(t.subrange(0, we).len() == 6);
    assert(t.subrange(0, we)[0] == 'i');
    assert(t[0] == 'i');
    assert(t.subrange(0, we) != "package"@);
}

proof fn lemma_lookup_names(tags: Seq<TagV>, name: Seq<char>, k: int)
    ensures
        lookup_from(tags, name, k).len() > 0 ==> exists|j: int|
            0 <= j < tags.len() && (#[trigger] tags[j]).name == name,
        tags.len() == 0 ==> lookup_from(tags, name, k).len() == 0,
    decreases tags.len() - k,
{
    if 0 <= k < tags.len() && tags[k].name != name {
        lemma_lookup_names(tags, name, k + 1);
    }
}

/// Each declared parameter takes its description from the first `@param` note that
/// names it, and from no other: a parameter with a non-empty description has a note
/// of its own name, so a note that names no declared parameter shows nowhere.
pub proof fn lemma_param_desc_own(s: Seq<char>, i: int, q: int, tags: Seq<TagV>)
    ensures
        forall|j: int|
            0 <= j < params_from(s, i, q, tags).len() ==> (#[trigger] params_from(
                s,
                i,
                q,
                tags,
            )[j]).desc == lookup_from(tags, params_from(s, i, q, tags)[j].name, 0),
        forall|j: int|
            0 <= j < params_from(s, i, q, tags).len() && (#[trigger] params_from(s, i, q, tags)[j]).desc.len()
                > 0 ==> exists|k: int|
                0 <= k < tags.len() && (#[trigger] tags[k]).name == params_from(s, i, q, tags)[j].name,
    decreases q - i,
{
    let c = crate::scan::top_comma(s, i, q, 0);
    let ps = params_from(s, i, q, tags);
    if c >= q || c < i {
    } else {
        lemma_param_desc_own(s, c + 1, q, tags);
    }
    assert forall|j: int| 0 <= j < ps.len() implies (#[trigger] ps[j]).desc == lookup_from(
        tags,
        ps[j].name,
        0,
    ) && (ps[j].desc.len() > 0 ==> exists|k: int|
        0 <= k < tags.len() && (#[trigger] tags[k]).name == ps[j].name) by {
        let first = if c >= q || c < i {
            param_piece(s, i, q, tags)
        } else {
            param_piece(s, i, c, tags)
        };
        if j >= first.len() {
            assert(ps[j] == params_from(s, c + 1, q, tags)[j - first.len()]);
        }
        lemma_lookup_names(tags, ps[j].name, 0);
    }
}

/// A method declared without a visibility word (after any annotations) has an empty
/// `privacy`; with one, its `privacy` is that word and nothing else.
pub proof fn lemma_default_visibility(
    t: Seq<char>,
    desc: Seq<char>,
    tags: Seq<TagV>,
)
    requires
        method_decl(t, 0, t.len() as int, desc, tags) is Some,
    ensures
        ({
            let p = find_char(t, 0, t.len() as int, '(');
            let a = crate::decl::ann_end(t, 0, p);
            let first = t.subrange(a, word_end(t, a, p));
            let privacy = method_decl(t, 0, t.len() as int, desc, tags)->0.privacy;
            &&& !is_visibility(first) ==> privacy.len() == 0
            &&& is_visibility(first) ==> privacy == first
        }),
{
}

/// A comment block followed by a non-blank line that is no comment documents nothing
/// after that line: the wait ends, and a declaration on the next line gets an empty
/// description and empty parameter descriptions.
pub proof fn lemma_binding_locality(st: StateV, l1: Seq<char>, l2: Seq<char>)
    requires
        !st.open,
        trim_line(l1).len() > 0,
        !(trim_line(l1).len() >= 2 && trim_line(l1)[0] == '/' && trim_line(l1)[1] == '*'),
    ensures
        !step(st, l1).ready,
        ({
            let s1 = step(st, l1);
            let s2 = step(s1, l2);
            &&& s2.class.description == s1.class.description || s2.class.description.len() == 0
            &&& forall|k: int|
                s1.class.methods.len() <= k < s2.class.methods.len() ==> (#[trigger] s2.class.methods[k]).description.len()
                    == 0
            &&& forall|k: int, j: int|
                s1.class.methods.len() <= k < s2.class.methods.len() && 0 <= j
                    < s2.class.methods[k].parameters.len() ==> (#[trigger] s2.class.methods[k].parameters[j]).desc.len()
                    == 0
        }),
{
    let s1 = step(st, l1);
    let s2 = step(s1, l2);
    let t = trim_line(l2);
    let n = t.len() as int;
    if !(n >= 2 && t[0] == '/' && t[1] == '*') && !s1.open && n > 0 {
        let e: Seq<TagV> = Seq::empty();
        let md = method_decl(t, 0, n, Seq::empty(), e);
        if md is Some && s2.class.methods.len() > s1.class.methods.len() {
            let pp = crate::decl::method_split(t, 0, n).0;
            let q = find_char(t, pp + 1, n, ')');
            lemma_param_desc_own(t, pp + 1, q, e);
            let ps = params_from(t, pp + 1, q, e);
            assert forall|j: int| 0 <= j < ps.len() implies (#[trigger] ps[j]).desc.len() == 0 by {
                lemma_lookup_names(e, ps[j].name, 0);
            }
        }
    }
}

/// Every method of the record has a visibility it was declared with or none.
pub open spec fn privacy_declared(st: StateV) -> bool {
    forall|k: int|
        0 <= k < st.class.methods.len() ==> (#[trigger] st.class.methods[k]).privacy.len() == 0
            || is_visibility(st.class.methods[k].privacy)
}

proof fn lemma_step_privacy(st: StateV, l: Seq<char>)
    requires
        privacy_declared(st),
    ensures
        privacy_declared(step(st, l)),
{
    let r = step(st, l);
    assert forall|k: int| 0 <= k < r.class.methods.len() implies (#[trigger] r.class.methods[k]).privacy.len()
        == 0 || is_visibility(r.class.methods[k].privacy) by {
        if k >= st.class.methods.len() {
            let t = trim_line(l);
            let n = t.len() as int;
            let p = find_char(t, 0, n, '(');
            let a = crate::decl::ann_end(t, 0, p);
            assert(r.class.methods[k].privacy == crate::decl::visibility(t, a, p));
        }
    }
}

/// A method's `privacy` is never guessed: in the record of any text, each method's
/// `privacy` is empty or one of `public`, `private`, `protected`, as its own line wrote it.
pub proof fn lemma_privacy_never_guessed(s: Seq<char>, i: int, st: StateV)
    requires
        privacy_declared(st),
    ensures
        privacy_declared(run(s, i, st)),
    decreases s.len() - i,
{
    if 0 <= i <= s.len() {
        let e = find_char(s, i, s.len() as int, '\n');
        lemma_step_privacy(st, s.subrange(i, e));
        if e < s.len() && e >= i {
            lemma_privacy_never_guessed(s, e + 1, step(st, s.subrange(i, e)));
        }
    }
}

/// The same, from the start of a text: every method of `parse_text(s)` has an empty
/// `privacy` or a visibility word.
pub proof fn lemma_parse_privacy(s: Seq<char>)
    ensures
        forall|k: int|
            0 <= k < crate::parse::parse_text(s).methods.len() ==> (#[trigger] crate::parse::parse_text(
                s,
            ).methods[k]).privacy.len() == 0 || is_visibility(
                crate::parse::parse_text(s).methods[k].privacy,
            ),
{
    lemma_privacy_never_guessed(s, 0, crate::parse::init_state());
}

} // verus!
