use vstd::prelude::*;

verus! {

/// The position just after the last `.` among the first `k` characters of `s`,
/// or 0 when there is none.
pub open spec fn after_last_dot(s: Seq<char>, k: int) -> int
    decreases k,
{
    if k <= 0 {
        0
    } else if s[k - 1] == '.' {
        k
    } else {
        after_last_dot(s, k - 1)
    }
}

/// Whether a file name marks a Java source: it has a `.`, and the part after its
/// last `.` is exactly `java`.
pub open spec fn is_java_name(s: Seq<char>) -> bool {
    let k = after_last_dot(s, s.len() as int);
    k > 0 && s.subrange(k, s.len() as int) == "java"@
}

/// The position just after the last `.` of `v`, or 0 when it has none.
pub fn after_last_dot_exec(v: &Vec<char>) -> (r: usize)
    ensures
        r == after_last_dot(v@, v@.len() as int),
        r <= v@.len(),
{
    let n = v.len();
    let mut k: usize = n;
    while k > 0 && v[k - 1] != '.'
        invariant
            k <= n,
            n == v@.len(),
            after_last_dot(v@, k as int) == after_last_dot(v@, n as int),
        decreases k,
    {
        k = k - 1;
    }
    k
}

/// Whether a file name marks a Java source (see `is_java_name`).
pub fn is_java_file(file: &str) -> (r: bool)
    ensures
        r == is_java_name(file@),
{
    let v = crate::text::chars_of(file);
    let k = after_last_dot_exec(&v);
    k > 0 && crate::scan::span_is_exec(&v, k, v.len(), "java")
}

/// How many files one worker documents.
pub const BATCH: usize = 4;

/// How many workers document `n` files, `BATCH` at a time.
pub fn worker_count(n: usize) -> (r: usize)
    ensures
        r == (n + BATCH - 1) / BATCH as int,
        r * BATCH >= n,
        r == 0 || (r - 1) * BATCH < n,
{
    let r = n / BATCH + if n % BATCH != 0 { 1 } else { 0 };
    r
}

/// The files, as positions `[start, end)` in a list of `n`, that worker `w` documents.
pub fn batch_of(w: usize, n: usize) -> (r: (usize, usize))
    ensures
        r.0 == if w * BATCH <= n { w * BATCH } else { n as int },
        r.1 == if w * BATCH + BATCH <= n { w * BATCH + BATCH } else { n as int },
        r.0 <= r.1 <= n,
{
    let start = if w <= n / BATCH { w * BATCH } else { n };
    let end = if w < n / BATCH { w * BATCH + BATCH } else { n };
    (if start <= n { start } else { n }, end)
}

} // verus!
