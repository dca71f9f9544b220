use vstd::prelude::*;
use crate::comment::{
    DocV, PendingDoc, Tag, TagV, closes, comment_line, comment_line_exec, empty_doc, new_doc,
    tags_view,
};
use crate::decl::{
    class_decl, class_decl_exec, method_decl, method_decl_exec, stmt_arg, stmt_arg_exec,
    visibility,
};
use crate::model::{Class, ClassV, methods_view, strings_view};
use crate::scan::{
    find_char, find_char_exec, skip_ws, skip_ws_exec, span_chars, span_is, span_is_exec,
    span_string, trim_end, trim_end_exec, word_end, word_end_exec,
};

verus! {

/// Where a parse stands between two lines: the record so far, the documentation
/// comment being read or last read, whether a comment is open, and whether a
/// finished comment waits for the declaration it documents.
pub ghost struct StateV {
    pub class: ClassV,
    pub doc: DocV,
    pub open: bool,
    pub ready: bool,
}

pub open spec fn empty_class() -> ClassV {
    ClassV {
        class_name: Seq::empty(),
        access: Seq::empty(),
        package_name: Seq::empty(),
        description: Seq::empty(),
        dependencies: Seq::empty(),
        methods: Seq::empty(),
    }
}

pub open spec fn init_state() -> StateV {
    StateV { class: empty_class(), doc: empty_doc(), open: false, ready: false }
}

/// The record after a declaration line `[lo, hi)` (trimmed, non-empty, outside any
/// comment), which `desc` and `tags` document.
pub open spec fn declare(
    c: ClassV,
    l: Seq<char>,
    lo: int,
    hi: int,
    desc: Seq<char>,
    tags: Seq<TagV>,
) -> ClassV {
    let we = word_end(l, lo, hi);
    if span_is(l, lo, we, "package"@) {
        ClassV { package_name: stmt_arg(l, we, hi), ..c }
    } else if span_is(l, lo, we, "import"@) {
        ClassV { dependencies: c.dependencies.push(stmt_arg(l, we, hi)), ..c }
    } else if class_decl(l, lo, hi) is Some {
        ClassV {
            class_name: class_decl(l, lo, hi)->0,
            access: visibility(l, lo, hi),
            description: desc,
            ..c
        }
    } else if method_decl(l, lo, hi, desc, tags) is Some {
        ClassV { methods: c.methods.push(method_decl(l, lo, hi, desc, tags)->0), ..c }
    } else {
        c
    }
}

/// A line without its leading and trailing whitespace.
pub open spec fn trim_line(l: Seq<char>) -> Seq<char> {
    let lo = skip_ws(l, 0, l.len() as int);
    l.subrange(lo, trim_end(l, lo, l.len() as int))
}

/// The state after one trimmed line `t`. A line that opens a comment (`/*`) starts a
/// new block, whatever came before; inside a comment every line is comment text; a
/// blank line changes nothing; any other line is read as a declaration, bound to the
/// waiting comment if there is one, and ends that wait.
pub open spec fn step_trimmed(st: StateV, t: Seq<char>) -> StateV {
    let n = t.len() as int;
    if n >= 2 && t[0] == '/' && t[1] == '*' {
        StateV {
            doc: comment_line(empty_doc(), t, 2, n),
            open: !closes(t, 2, n),
            ready: closes(t, 2, n),
            ..st
        }
    } else if st.open {
        StateV { doc: comment_line(st.doc, t, 0, n), open: !closes(t, 0, n), ready: closes(t, 0, n), ..st }
    } else if n == 0 {
        st
    } else {
        let desc = if st.ready { st.doc.description } else { Seq::empty() };
        let tags = if st.ready { st.doc.tags } else { Seq::empty() };
        StateV { class: declare(st.class, t, 0, n, desc, tags), ready: false, ..st }
    }
}

/// The state after one line `l`.
pub open spec fn step(st: StateV, l: Seq<char>) -> StateV {
    step_trimmed(st, trim_line(l))
}

/// The state after the lines of `s` from position `i` on (lines end at `\n`).
pub open spec fn run(s: Seq<char>, i: int, st: StateV) -> StateV
    decreases s.len() - i,
{
    if i < 0 || i > s.len() {
        st
    } else {
        let e = find_char(s, i, s.len() as int, '\n');
        let next = step(st, s.subrange(i, e));
        if e >= s.len() || e < i {
            next
        } else {
            run(s, e + 1, next)
        }
    }
}

/// The record that a source text documents.
pub open spec fn parse_text(s: Seq<char>) -> ClassV {
    run(s, 0, init_state()).class
}

/// The state of a parse between two lines (see `StateV`).
pub struct ParseState {
    pub class: Class,
    pub doc: PendingDoc,
    pub open: bool,
    pub ready: bool,
}

impl View for ParseState {
    type V = StateV;

    open spec fn view(&self) -> StateV {
        StateV { class: self.class@, doc: self.doc@, open: self.open, ready: self.ready }
    }
}

fn empty_class_exec() -> (r: Class)
    ensures
        r@ == empty_class(),
{
    let r = Class {
        class_name: String::new(),
        access: String::new(),
        package_name: String::new(),
        description: String::new(),
        dependencies: Vec::new(),
        methods: Vec::new(),
    };
    assert(strings_view(r.dependencies@) =~= Seq::empty());
    assert(methods_view(r.methods@) =~= Seq::empty());
    r
}

fn declare_exec(
    c: &mut Class,
    l: &Vec<char>,
    lo: usize,
    hi: usize,
    desc: &Vec<char>,
    tags: &Vec<Tag>,
)
    requires
        lo <= hi <= l@.len(),
    ensures
        final(c)@ == declare(old(c)@, l@, lo as int, hi as int, desc@, tags_view(tags@)),
{
    let we = word_end_exec(l, lo, hi);
    if span_is_exec(l, lo, we, "package") {
        c.package_name = stmt_arg_exec(l, we, hi);
    } else if span_is_exec(l, lo, we, "import") {
        let ghost before = c.dependencies@;
        let d = stmt_arg_exec(l, we, hi);
        c.dependencies.push(d);
        assert(strings_view(c.dependencies@) =~= strings_view(before).push(d@));
    } else {
        match class_decl_exec(l, lo, hi) {
            Some(name) => {
                c.class_name = name;
                c.access = crate::decl::visibility_exec(l, lo, hi);
                let d = span_string(desc, 0, desc.len());
                assert(d@ =~= desc@);
                c.description = d;
            },
            None => {
                match method_decl_exec(l, lo, hi, desc, tags) {
                    Some(m) => {
                        let ghost before = c.methods@;
                        let ghost mv = m@;
                        c.methods.push(m);
                        assert(methods_view(c.methods@) =~= methods_view(before).push(mv));
                    },
                    None => {},
                }
            },
        }
    }
}

/// Feeds one line to the parse.
pub fn feed_line(st: &mut ParseState, l: &Vec<char>)
    ensures
        final(st)@ == step(old(st)@, l@),
{
    let lo = skip_ws_exec(l, 0, l.len());
    let hi = trim_end_exec(l, lo, l.len());
    let t = span_chars(l, lo, hi);
    let n = t.len();
    if n >= 2 && t[0] == '/' && t[1] == '*' {
        let mut d = new_doc();
        let cl = comment_line_exec(&mut d, &t, 2, n);
        st.doc = d;
        st.open = !cl;
        st.ready = cl;
    } else if st.open {
        let cl = comment_line_exec(&mut st.doc, &t, 0, n);
        st.open = !cl;
        st.ready = cl;
    } else if n == 0 {
    } else {
        let no_desc: Vec<char> = Vec::new();
        let no_tags: Vec<Tag> = Vec::new();
        assert(tags_view(no_tags@) =~= Seq::empty());
        if st.ready {
            declare_exec(&mut st.class, &t, 0, n, &st.doc.description, &st.doc.tags);
        } else {
            declare_exec(&mut st.class, &t, 0, n, &no_desc, &no_tags);
        }
        st.ready = false;
    }
}

/// Reads one source file's text and returns the record it documents. Every text
/// gives a record: what cannot be read as a declaration or a comment is passed over.
pub fn parse(text: &str) -> (r: Class)
    ensures
        r@ == parse_text(text@),
{
    let s = crate::text::chars_of(text);
    let n = s.len();
    let mut st = ParseState { class: empty_class_exec(), doc: new_doc(), open: false, ready: false };
    let mut i: usize = 0;
    let mut done = false;
    while !done
        invariant
            i <= n == s@.len(),
            s@ == text@,
            !done ==> run(s@, i as int, st@) == run(s@, 0, init_state()),
            done ==> st@ == run(s@, 0, init_state()),
        decreases n - i + (if done { 0int } else { 1int }),
    {
        let e = find_char_exec(&s, i, n, '\n');
        let line = span_chars(&s, i, e);
        feed_line(&mut st, &line);
        if e >= n {
            done = true;
        } else {
            i = e + 1;
        }
    }
    st.class
}

/// The name of a file without its extension (the part from its last `.` on).
pub open spec fn base_name(f: Seq<char>) -> Seq<char> {
    let k = crate::files::after_last_dot(f, f.len() as int);
    if k > 0 {
        f.subrange(0, k - 1)
    } else {
        f
    }
}

/// The record of a file's text, named after the file when the text declares no class.
pub fn parse_named(text: &str, file_name: &str) -> (r: Class)
    ensures
        r@ == (if parse_text(text@).class_name.len() > 0 {
            parse_text(text@)
        } else {
            ClassV { class_name: base_name(file_name@), ..parse_text(text@) }
        }),
{
    let mut c = parse(text);
    let name = crate::text::chars_of(c.class_name.as_str());
    if name.len() == 0 {
        let f = crate::text::chars_of(file_name);
        let k = crate::files::after_last_dot_exec(&f);
        let base = if k > 0 {
            span_string(&f, 0, k - 1)
        } else {
            span_string(&f, 0, f.len())
        };
        assert(f@.subrange(0, f@.len() as int) =~= f@);
        c.class_name = base;
    }
    c
}

} // verus!
