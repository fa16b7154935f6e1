//! File paths as texts, with `/` between their components.
use vstd::prelude::*;

use crate::text::{chars_of, concat2, concat3, string_of};

verus! {

/// A path followed by a component: an absolute component replaces the path, and
/// a separator goes between the two where the path does not end in one.
pub open spec fn joined_path(base: Seq<char>, part: Seq<char>) -> Seq<char> {
    if part.len() > 0 && part[0] == '/' {
        part
    } else if base.len() == 0 || base.last() == '/' {
        base + part
    } else {
        base + "/"@ + part
    }
}

/// Appends a component to a path.
pub fn join(base: &str, part: &str) -> (r: String)
    ensures
        r@ == joined_path(base@, part@),
{
    let head = chars_of(part);
    let tail = chars_of(base);
    if head.len() > 0 && head[0] == '/' {
        part.to_owned()
    } else if tail.len() == 0 || tail[tail.len() - 1] == '/' {
        concat2(base, part)
    } else {
        concat3(base, "/", part)
    }
}

/// Appends two components to a path.
pub fn join2(base: &str, first: &str, second: &str) -> (r: String)
    ensures
        r@ == joined_path(joined_path(base@, first@), second@),
{
    join(join(base, first).as_str(), second)
}

/// How much of a path no component takes up: the root, or a `.` that leads the
/// path.
pub open spec fn lead_len(path: Seq<char>) -> int {
    if path.len() > 0 && (path[0] == '/' || (path[0] == '.' && (path.len() == 1 || path[1]
        == '/'))) {
        1
    } else {
        0
    }
}

/// Where a path that ends at `end` ends without separators and `.` components
/// behind its last name.
pub open spec fn trimmed_end(path: Seq<char>, end: int) -> int
    decreases end,
{
    let lead = lead_len(path);
    if end > lead && path[end - 1] == '/' {
        trimmed_end(path, end - 1)
    } else if end > lead && path[end - 1] == '.' && (end - 1 == lead || path[end - 2] == '/') {
        trimmed_end(path, end - 1)
    } else {
        end
    }
}

/// Where the last name of a path that ends at `end` begins: behind the last
/// separator.
pub open spec fn name_start(path: Seq<char>, end: int) -> int
    decreases end,
{
    if end > lead_len(path) && path[end - 1] != '/' {
        name_start(path, end - 1)
    } else {
        end
    }
}

/// The directory that a path lies in: the path without its last name. It is
/// empty for a path of a single component, and `.` where there is none to take
/// away.
pub open spec fn parent_path(path: Seq<char>) -> Seq<char> {
    let end = trimmed_end(path, path.len() as int);
    if end > lead_len(path) {
        path.take(trimmed_end(path, name_start(path, end)))
    } else if path.len() > 0 && path[0] == '.' {
        Seq::empty()
    } else {
        "."@
    }
}

fn find_lead(path: &Vec<char>) -> (r: usize)
    ensures
        r == lead_len(path@),
        r <= path.len(),
{
    if path.len() > 0 && (path[0] == '/' || (path[0] == '.' && (path.len() == 1 || path[1]
        == '/'))) {
        1
    } else {
        0
    }
}

fn trim_end(path: &Vec<char>, end: usize) -> (r: usize)
    requires
        end <= path.len(),
    ensures
        r <= end,
        r == trimmed_end(path@, end as int),
{
    let lead: usize = find_lead(path);
    let mut n: usize = end;
    while n > lead && (path[n - 1] == '/' || (path[n - 1] == '.' && (n - 1 == lead || path[n - 2]
        == '/')))
        invariant
            lead == lead_len(path@),
            n <= end <= path.len(),
            trimmed_end(path@, n as int) == trimmed_end(path@, end as int),
        decreases n,
    {
        n = n - 1;
    }
    n
}

fn find_name(path: &Vec<char>, end: usize) -> (r: usize)
    requires
        end <= path.len(),
    ensures
        r <= end,
        r == name_start(path@, end as int),
{
    let lead: usize = find_lead(path);
    let mut n: usize = end;
    while n > lead && path[n - 1] != '/'
        invariant
            lead == lead_len(path@),
            n <= end <= path.len(),
            name_start(path@, n as int) == name_start(path@, end as int),
        decreases n,
    {
        n = n - 1;
    }
    n
}

/// The directory that a path lies in.
pub fn parent(path: &str) -> (r: String)
    ensures
        r@ == parent_path(path@),
{
    let v = chars_of(path);
    let end: usize = trim_end(&v, v.len());
    if end > find_lead(&v) {
        let name: usize = find_name(&v, end);
        let dir: usize = trim_end(&v, name);
        assert(v@.take(dir as int) =~= v@.subrange(0, dir as int));
        string_of(&v, 0, dir)
    } else if v.len() > 0 && v[0] == '.' {
        String::new()
    } else {
        ".".to_owned()
    }
}

/// A component is appended behind the path, with exactly one separator between the
/// two: where neither brings one, one is put there.
pub proof fn components_are_appended(base: Seq<char>, part: Seq<char>)
    requires
        base.len() > 0,
        part.len() > 0 && part[0] != '/',
    ensures
        base.last() == '/' ==> joined_path(base, part) == base + part,
        base.last() != '/' ==> joined_path(base, part) == base.push('/') + part,
{
    reveal_strlit("/");
    assert("/"@ =~= seq!['/']);
    assert(base + "/"@ =~= base.push('/'));
}

proof fn lemma_name_start(path: Seq<char>, end: int, start: int)
    requires
        lead_len(path) <= start <= end <= path.len(),
        start > 0 ==> path[start - 1] == '/' || start == lead_len(path),
        forall|i: int| start <= i < end ==> path[i] != '/',
    ensures
        name_start(path, end) == start,
    decreases end,
{
    if end > start {
        lemma_name_start(path, end - 1, start);
    }
}

/// The directory that a file was put into is the one that it lies in.
pub proof fn files_lie_where_they_were_put(dir: Seq<char>, name: Seq<char>)
    requires
        dir.len() > 0,
        dir.last() != '/',
        dir.last() == '.' ==> dir.len() > 1 && dir[dir.len() - 2] != '/',
        name.len() > 0,
        !name.contains('/'),
        name != seq!['.'],
    ensures
        parent_path(joined_path(dir, name)) == dir,
{
    reveal_strlit("/");
    let path = joined_path(dir, name);
    let n = dir.len() as int;
    assert(name[0] != '/') by {
        assert(name.contains(name[0]));
    }
    assert(path == dir + "/"@ + name);
    assert(path[n] == '/');
    assert(path[n - 1] == dir.last());
    let len = path.len() as int;
    assert forall|i: int| n + 1 <= i < len implies path[i] != '/' by {
        assert(path[i] == name[i - n - 1]);
        assert(name.contains(name[i - n - 1]));
    }
    assert(lead_len(path) <= 1 <= n);
    assert(path[len - 1] == name.last());
    if name.len() == 1 {
        assert(name =~= seq![name[0]]);
        assert(path[len - 1] != '.');
    } else {
        assert(path[len - 2] != '/');
    }
    assert(trimmed_end(path, len) == len);
    lemma_name_start(path, len, n + 1);
    if n > 1 {
        assert(path[n - 2] == dir[n - 2]);
    }
    assert(trimmed_end(path, n) == n);
    assert(trimmed_end(path, n + 1) == trimmed_end(path, n));
    assert(path.take(n) =~= dir);
}

} // verus!
