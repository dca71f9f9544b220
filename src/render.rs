use vstd::prelude::*;
use crate::model::{Class, ClassV, Method, MethodV, Param, ParamV, methods_view, params_view, strings_view};
use crate::parse::trim_line;
use crate::scan::{skip_ws_exec, trim_end_exec};
use crate::text::{chars_of, string_of};

verus! {

/// The table row of one parameter.
pub open spec fn param_md(p: ParamV) -> Seq<char> {
    "| "@ + p.name + " | "@ + p.var_type + " | "@ + p.desc + " |\n"@
}

pub open spec fn params_md(ps: Seq<ParamV>) -> Seq<char>
    decreases ps.len(),
{
    if ps.len() == 0 {
        Seq::empty()
    } else {
        params_md(ps.drop_last()) + param_md(ps.last())
    }
}

/// The section of one method: its name as a heading, its visibility, description and
/// return type, then a table of its parameters or a note that it has none.
pub open spec fn method_md(m: MethodV) -> Seq<char> {
    "#### "@ + m.name + "\n\n"@ + "privacy: "@ + trim_line(m.privacy) + "\n"@ + "description: "@
        + m.description + "\n"@ + "return: "@ + m.return_type + "\n\n"@ + (if m.parameters.len()
        > 0 {
        "| Name | Type | Description |\n|_____|_____|_____|\n"@
    } else {
        "This method has no parameters.\n"@
    }) + params_md(m.parameters) + "\n"@
}

pub open spec fn methods_md(ms: Seq<MethodV>) -> Seq<char>
    decreases ms.len(),
{
    if ms.len() == 0 {
        Seq::empty()
    } else {
        methods_md(ms.drop_last()) + method_md(ms.last())
    }
}

pub open spec fn deps_md(ds: Seq<Seq<char>>) -> Seq<char>
    decreases ds.len(),
{
    if ds.len() == 0 {
        Seq::empty()
    } else {
        deps_md(ds.drop_last()) + "- "@ + ds.last() + "\n"@
    }
}

/// The heading part of a class's document: name, description (when there is one),
/// visibility and package.
pub open spec fn header_md(c: ClassV) -> Seq<char> {
    "# "@ + c.class_name + "\n\n"@ + (if c.description.len() > 0 {
        "description: "@ + trim_line(c.description) + "\n"@
    } else {
        Seq::empty()
    }) + "privacy: "@ + trim_line(c.access) + "\n"@ + "package: "@ + trim_line(c.package_name)
        + "\n\n"@
}

/// The Markdown document of a class.
pub open spec fn markdown(c: ClassV) -> Seq<char> {
    header_md(c) + "## Dependencies\n\n"@ + deps_md(c.dependencies) + "\n## Methods\n\n"@
        + methods_md(c.methods)
}

fn append_chars(out: &mut Vec<char>, v: &Vec<char>)
    ensures
        final(out)@ == old(out)@ + v@,
{
    let ghost start = out@;
    let mut k: usize = 0;
    while k < v.len()
        invariant
            k <= v@.len(),
            out@ == start + v@.subrange(0, k as int),
        decreases v@.len() - k,
    {
        out.push(v[k]);
        assert(out@ =~= start + v@.subrange(0, k + 1));
        k = k + 1;
    }
    assert(v@.subrange(0, v@.len() as int) =~= v@);
}

fn append_str(out: &mut Vec<char>, w: &str)
    ensures
        final(out)@ == old(out)@ + w@,
{
    let v = chars_of(w);
    append_chars(out, &v);
}

fn append_string(out: &mut Vec<char>, s: &String)
    ensures
        final(out)@ == old(out)@ + s@,
{
    append_str(out, s.as_str());
}

fn append_trimmed(out: &mut Vec<char>, s: &String)
    ensures
        final(out)@ == old(out)@ + trim_line(s@),
{
    let v = chars_of(s.as_str());
    let lo = skip_ws_exec(&v, 0, v.len());
    let hi = trim_end_exec(&v, lo, v.len());
    let t = crate::scan::span_chars(&v, lo, hi);
    append_chars(out, &t);
}

fn append_param(out: &mut Vec<char>, p: &Param)
    ensures
        final(out)@ == old(out)@ + param_md(p@),
{
    let ghost start = out@;
    append_str(out, "| ");
    append_string(out, &p.name);
    append_str(out, " | ");
    append_string(out, &p.var_type);
    append_str(out, " | ");
    append_string(out, &p.desc);
    append_str(out, " |\n");
    assert(out@ =~= start + param_md(p@));
}

fn append_method(out: &mut Vec<char>, m: &Method)
    ensures
        final(out)@ == old(out)@ + method_md(m@),
{
    let ghost start = out@;
    append_str(out, "#### ");
    append_string(out, &m.name);
    append_str(out, "\n\n");
    append_str(out, "privacy: ");
    append_trimmed(out, &m.privacy);
    append_str(out, "\n");
    append_str(out, "description: ");
    append_string(out, &m.description);
    append_str(out, "\n");
    append_str(out, "return: ");
    append_string(out, &m.return_type);
    append_str(out, "\n\n");
    let ghost mid = out@;
    if m.parameters.len() > 0 {
        append_str(out, "| Name | Type | Description |\n|_____|_____|_____|\n");
    } else {
        append_str(out, "This method has no parameters.\n");
    }
    let ghost table = out@;
    let ghost ps = params_view(m.parameters@);
    let mut k: usize = 0;
    while k < m.parameters.len()
        invariant
            k <= m.parameters@.len(),
            ps == params_view(m.parameters@),
            out@ == table + params_md(ps.subrange(0, k as int)),
        decreases m.parameters@.len() - k,
    {
        append_param(out, &m.parameters[k]);
        assert(ps.subrange(0, k + 1).drop_last() =~= ps.subrange(0, k as int));
        k = k + 1;
    }
    assert(ps.subrange(0, ps.len() as int) =~= ps);
    append_str(out, "\n");
    assert(out@ =~= start + method_md(m@));
}

/// Renders a class as a Markdown document.
pub fn render_markdown(c: &Class) -> (r: String)
    ensures
        r@ == markdown(c@),
{
    let mut out: Vec<char> = Vec::new();
    append_str(&mut out, "# ");
    append_string(&mut out, &c.class_name);
    append_str(&mut out, "\n\n");
    let desc_chars = chars_of(c.description.as_str());
    if desc_chars.len() > 0 {
        append_str(&mut out, "description: ");
        append_trimmed(&mut out, &c.description);
        append_str(&mut out, "\n");
    }
    append_str(&mut out, "privacy: ");
    append_trimmed(&mut out, &c.access);
    append_str(&mut out, "\n");
    append_str(&mut out, "package: ");
    append_trimmed(&mut out, &c.package_name);
    append_str(&mut out, "\n\n");
    assert(out@ =~= header_md(c@));
    append_str(&mut out, "## Dependencies\n\n");
    let ghost before_deps = out@;
    let ghost ds = strings_view(c.dependencies@);
    let mut k: usize = 0;
    while k < c.dependencies.len()
        invariant
            k <= c.dependencies@.len(),
            ds == strings_view(c.dependencies@),
            out@ == before_deps + deps_md(ds.subrange(0, k as int)),
        decreases c.dependencies@.len() - k,
    {
        let ghost pre = out@;
        append_str(&mut out, "- ");
        append_string(&mut out, &c.dependencies[k]);
        append_str(&mut out, "\n");
        assert(ds.subrange(0, k + 1).drop_last() =~= ds.subrange(0, k as int));
        assert(out@ =~= before_deps + deps_md(ds.subrange(0, k + 1)));
        k = k + 1;
    }
    assert(ds.subrange(0, ds.len() as int) =~= ds);
    append_str(&mut out, "\n## Methods\n\n");
    let ghost before_methods = out@;
    let ghost ms = methods_view(c.methods@);
    let mut j: usize = 0;
    while j < c.methods.len()
        invariant
            j <= c.methods@.len(),
            ms == methods_view(c.methods@),
            out@ == before_methods + methods_md(ms.subrange(0, j as int)),
        decreases c.methods@.len() - j,
    {
        append_method(&mut out, &c.methods[j]);
        assert(ms.subrange(0, j + 1).drop_last() =~= ms.subrange(0, j as int));
        assert(out@ =~= before_methods + methods_md(ms.subrange(0, j + 1)));
        j = j + 1;
    }
    assert(ms.subrange(0, ms.len() as int) =~= ms);
    assert(out@ =~= markdown(c@));
    string_of(&out)
}

/// The path of the Markdown document of class `class_name` in directory `dest`.
pub fn markdown_path(dest: &str, class_name: &str) -> (r: String)
    ensures
        r@ == dest@ + "/"@ + class_name@ + ".md"@,
{
    let mut out: Vec<char> = Vec::new();
    append_str(&mut out, dest);
    append_str(&mut out, "/");
    append_str(&mut out, class_name);
    append_str(&mut out, ".md");
    string_of(&out)
}

} // verus!
