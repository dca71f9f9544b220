use vstd::prelude::*;
use crate::scan::{
    skip_char, skip_char_exec, skip_ws, skip_ws_exec, span_chars, span_is, span_is_exec, trim_end,
    trim_end_exec, word_end, word_end_exec,
};

verus! {

/// A `@param` note of a documentation comment: the parameter's name and what it says of it.
pub struct Tag {
    pub name: Vec<char>,
    pub detail: Vec<char>,
}

pub ghost struct TagV {
    pub name: Seq<char>,
    pub detail: Seq<char>,
}

impl View for Tag {
    type V = TagV;

    open spec fn view(&self) -> TagV {
        TagV { name: self.name@, detail: self.detail@ }
    }
}

pub open spec fn tags_view(ts: Seq<Tag>) -> Seq<TagV> {
    ts.map_values(|t: Tag| t@)
}

/// A documentation comment as read so far: its free text, its `@param` notes,
/// whether a note has begun, and whether the latest note is a `@param` one.
pub struct PendingDoc {
    pub description: Vec<char>,
    pub tags: Vec<Tag>,
    pub tagged: bool,
    pub last_param: bool,
}

pub ghost struct DocV {
    pub description: Seq<char>,
    pub tags: Seq<TagV>,
    pub tagged: bool,
    pub last_param: bool,
}

impl View for PendingDoc {
    type V = DocV;

    open spec fn view(&self) -> DocV {
        DocV {
            description: self.description@,
            tags: tags_view(self.tags@),
            tagged: self.tagged,
            last_param: self.last_param,
        }
    }
}

pub open spec fn empty_doc() -> DocV {
    DocV { description: Seq::empty(), tags: Seq::empty(), tagged: false, last_param: false }
}

/// `b` appended to `a` with `sep` between them, or `b` alone when `a` is empty.
pub open spec fn join(a: Seq<char>, b: Seq<char>, sep: char) -> Seq<char> {
    if a.len() == 0 {
        b
    } else {
        a.push(sep) + b
    }
}

/// What one trimmed, non-empty piece of comment text `[lo, hi)` does to the block:
/// a `@param name detail` note is added; any other `@` note ends the free text and
/// is not kept; plain text extends the free text (newline-joined) before the first
/// note, and afterwards the detail of the latest note (space-joined) if that is a
/// `@param` one.
pub open spec fn apply_content(d: DocV, s: Seq<char>, lo: int, hi: int) -> DocV {
    if lo >= hi {
        d
    } else {
        let we = word_end(s, lo, hi);
        if span_is(s, lo, we, "@param"@) {
            let ns = skip_ws(s, we, hi);
            let ne = word_end(s, ns, hi);
            let ds = skip_ws(s, ne, hi);
            DocV {
                tags: d.tags.push(TagV { name: s.subrange(ns, ne), detail: s.subrange(ds, hi) }),
                tagged: true,
                last_param: true,
                ..d
            }
        } else if s[lo] == '@' {
            DocV { tagged: true, last_param: false, ..d }
        } else if !d.tagged {
            DocV { description: join(d.description, s.subrange(lo, hi), '\n'), ..d }
        } else if d.last_param && d.tags.len() > 0 {
            let t = d.tags.last();
            DocV {
                tags: d.tags.update(
                    d.tags.len() - 1,
                    TagV { name: t.name, detail: join(t.detail, s.subrange(lo, hi), ' ') },
                ),
                ..d
            }
        } else {
            d
        }
    }
}

/// Whether the trimmed comment line `[c, b)` ends the block with `*/`.
pub open spec fn closes(s: Seq<char>, c: int, b: int) -> bool {
    b - c >= 2 && s[b - 2] == '*' && s[b - 1] == '/'
}

/// The text of a comment line `[c, b)` (after any opening marker): without a
/// closing `*/`, without leading `*`s, trimmed.
pub open spec fn content_span(s: Seq<char>, c: int, b: int) -> (int, int) {
    let e = if closes(s, c, b) { b - 2 } else { b };
    let lo = skip_ws(s, skip_char(s, c, e, '*'), e);
    (lo, trim_end(s, lo, e))
}

/// The block after one comment line `[c, b)`.
pub open spec fn comment_line(d: DocV, s: Seq<char>, c: int, b: int) -> DocV {
    apply_content(d, s, content_span(s, c, b).0, content_span(s, c, b).1)
}

pub fn new_doc() -> (r: PendingDoc)
    ensures
        r@ == empty_doc(),
{
    let r = PendingDoc { description: Vec::new(), tags: Vec::new(), tagged: false, last_param: false };
    assert(tags_view(r.tags@) =~= Seq::empty());
    r
}

fn join_exec(a: &mut Vec<char>, v: &Vec<char>, lo: usize, hi: usize, sep: char)
    requires
        lo <= hi <= v@.len(),
    ensures
        final(a)@ == join(old(a)@, v@.subrange(lo as int, hi as int), sep),
{
    if a.len() > 0 {
        a.push(sep);
    }
    let mut k = lo;
    let ghost start = a@;
    while k < hi
        invariant
            lo <= k <= hi <= v@.len(),
            a@ == start + v@.subrange(lo as int, k as int),
        decreases hi - k,
    {
        a.push(v[k]);
        assert(a@ =~= start + v@.subrange(lo as int, k + 1));
        k = k + 1;
    }
    assert(a@ =~= join(old(a)@, v@.subrange(lo as int, hi as int), sep));
}

/// Applies one trimmed piece of comment text `[lo, hi)` of `v` to the block.
pub fn apply_content_exec(d: &mut PendingDoc, v: &Vec<char>, lo: usize, hi: usize)
    requires
        lo <= hi <= v@.len(),
    ensures
        final(d)@ == apply_content(old(d)@, v@, lo as int, hi as int),
{
    if lo >= hi {
        return;
    }
    let we = word_end_exec(v, lo, hi);
    if span_is_exec(v, lo, we, "@param") {
        let ns = skip_ws_exec(v, we, hi);
        let ne = word_end_exec(v, ns, hi);
        let ds = skip_ws_exec(v, ne, hi);
        let t = Tag { name: span_chars(v, ns, ne), detail: span_chars(v, ds, hi) };
        let ghost before = d.tags@;
        d.tags.push(t);
        assert(tags_view(d.tags@) =~= tags_view(before).push(t@));
        d.tagged = true;
        d.last_param = true;
    } else if v[lo] == '@' {
        d.tagged = true;
        d.last_param = false;
    } else if !d.tagged {
        join_exec(&mut d.description, v, lo, hi, '\n');
    } else if d.last_param && d.tags.len() > 0 {
        let ghost before = d.tags@;
        let mut t = d.tags.pop().unwrap();
        join_exec(&mut t.detail, v, lo, hi, ' ');
        d.tags.push(t);
        assert(tags_view(d.tags@) =~= tags_view(before).update(
            tags_view(before).len() - 1,
            TagV { name: tags_view(before).last().name, detail: join(tags_view(before).last().detail, v@.subrange(lo as int, hi as int), ' ') },
        ));
    }
}

/// Whether the comment line `[c, b)` of `v` ends the block.
pub fn closes_exec(v: &Vec<char>, c: usize, b: usize) -> (r: bool)
    requires
        c <= b <= v@.len(),
    ensures
        r == closes(v@, c as int, b as int),
{
    b - c >= 2 && v[b - 2] == '*' && v[b - 1] == '/'
}

/// Applies the comment line `[c, b)` of `v` to the block; returns whether it ends the block.
pub fn comment_line_exec(d: &mut PendingDoc, v: &Vec<char>, c: usize, b: usize) -> (r: bool)
    requires
        c <= b <= v@.len(),
    ensures
        final(d)@ == comment_line(old(d)@, v@, c as int, b as int),
        r == closes(v@, c as int, b as int),
{
    let cl = closes_exec(v, c, b);
    let e = if cl { b - 2 } else { b };
    let st = skip_char_exec(v, c, e, '*');
    let lo = skip_ws_exec(v, st, e);
    let hi = trim_end_exec(v, lo, e);
    apply_content_exec(d, v, lo, hi);
    cl
}

} // verus!
