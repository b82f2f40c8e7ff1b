//! File names, stems and extensions of slash-separated paths.
//!
//! A path is read as components separated by `/`. Empty components and `.`
//! components at the end of a path do not count, so `a/b/`, `a/b/.` and
//! `a/b` all name `b`. A path whose last component is `..`, or which has no
//! component left, names no file.

use vstd::prelude::*;
use crate::text::{append_range, chars_of, string_of};

verus! {

/// Where the last component that counts ends, looking at the first `n`
/// characters of `p`: trailing separators and trailing `/.` are passed over.
pub open spec fn trimmed_end(p: Seq<char>, n: int) -> int
    decreases n,
{
    if n <= 0 {
        0
    } else if p[n - 1] == '/' {
        trimmed_end(p, n - 1)
    } else if n >= 2 && p[n - 1] == '.' && p[n - 2] == '/' {
        trimmed_end(p, n - 2)
    } else {
        n
    }
}

/// Where the component that ends at `e` begins: just behind the nearest
/// separator before `e`, or at 0.
pub open spec fn component_start(p: Seq<char>, e: int) -> int
    decreases e,
{
    if e <= 0 {
        0
    } else if p[e - 1] == '/' {
        e
    } else {
        component_start(p, e - 1)
    }
}

/// The bounds `(begin, end)` of the file name inside `p`, if `p` names a file.
pub open spec fn file_name_bounds(p: Seq<char>) -> Option<(int, int)> {
    let e = trimmed_end(p, p.len() as int);
    let b = component_start(p, e);
    let name = p.subrange(b, e);
    if name.len() == 0 || name == seq!['.'] || name == seq!['.', '.'] {
        None
    } else {
        Some((b, e))
    }
}

/// The final component of `p`, if it names a file.
pub open spec fn file_name_of(p: Seq<char>) -> Option<Seq<char>> {
    match file_name_bounds(p) {
        Some((b, e)) => Some(p.subrange(b, e)),
        None => None,
    }
}

/// The position of the last `.` among the first `n` characters of `name`,
/// or -1 if there is none.
pub open spec fn last_dot(name: Seq<char>, n: int) -> int
    decreases n,
{
    if n <= 0 {
        -1
    } else if name[n - 1] == '.' {
        n - 1
    } else {
        last_dot(name, n - 1)
    }
}

/// The dot that parts stem and extension in a file name: its last `.`,
/// unless that is the first character, which begins a hidden file's name.
pub open spec fn parting_dot(name: Seq<char>) -> Option<int> {
    let d = last_dot(name, name.len() as int);
    if d > 0 {
        Some(d)
    } else {
        None
    }
}

/// The stem of a file name: what stands before its parting dot, or the
/// whole name if it has none.
pub open spec fn stem_of_name(name: Seq<char>) -> Seq<char> {
    match parting_dot(name) {
        Some(d) => name.take(d),
        None => name,
    }
}

/// The extension of a file name: what stands behind its parting dot.
pub open spec fn extension_of_name(name: Seq<char>) -> Option<Seq<char>> {
    match parting_dot(name) {
        Some(d) => Some(name.skip(d + 1)),
        None => None,
    }
}

/// The file name of `p` without its extension.
pub open spec fn file_stem_of(p: Seq<char>) -> Option<Seq<char>> {
    match file_name_of(p) {
        Some(name) => Some(stem_of_name(name)),
        None => None,
    }
}

/// The extension of the file name of `p`.
pub open spec fn extension_of(p: Seq<char>) -> Option<Seq<char>> {
    match file_name_of(p) {
        Some(name) => extension_of_name(name),
        None => None,
    }
}

/// Finds the bounds of the file name inside `p`.
pub fn find_file_name(p: &Vec<char>) -> (bounds: Option<(usize, usize)>)
    ensures
        match bounds {
            Some((b, e)) => file_name_bounds(p@) == Some((b as int, e as int)) && b < e
                <= p.len(),
            None => file_name_bounds(p@) is None,
        },
{
    let mut e: usize = p.len();
    loop
        invariant
            e <= p.len(),
            trimmed_end(p@, p.len() as int) == trimmed_end(p@, e as int),
        ensures
            trimmed_end(p@, p.len() as int) == e,
        decreases e,
    {
        if e == 0 {
            break ;
        } else if p[e - 1] == '/' {
            e -= 1;
        } else if e >= 2 && p[e - 1] == '.' && p[e - 2] == '/' {
            e -= 2;
        } else {
            break ;
        }
    }
    let mut b: usize = e;
    while b > 0 && p[b - 1] != '/'
        invariant
            b <= e <= p.len(),
            component_start(p@, e as int) == component_start(p@, b as int),
        decreases b,
    {
        b -= 1;
    }
    let ghost name = p@.subrange(b as int, e as int);
    if e == b {
        return None;
    }
    if e - b == 1 && p[b] == '.' {
        assert(name == seq!['.']);
        return None;
    }
    if e - b == 2 && p[b] == '.' && p[b + 1] == '.' {
        assert(name == seq!['.', '.']);
        return None;
    }
    proof {
        if name == seq!['.'] {
            assert(name.len() == 1 && name[0] == '.');
        }
        if name == seq!['.', '.'] {
            assert(name.len() == 2 && name[0] == '.' && name[1] == '.');
        }
    }
    Some((b, e))
}

/// Finds the parting dot of the file name `p[b..e]`, as a position in `p`.
pub fn find_parting_dot(p: &Vec<char>, b: usize, e: usize) -> (dot: Option<usize>)
    requires
        b <= e <= p.len(),
    ensures
        match dot {
            Some(d) => b < d < e && parting_dot(p@.subrange(b as int, e as int)) == Some(
                d - b,
            ),
            None => parting_dot(p@.subrange(b as int, e as int)) is None,
        },
{
    let ghost name = p@.subrange(b as int, e as int);
    let mut n: usize = e;
    while n > b && p[n - 1] != '.'
        invariant
            b <= n <= e <= p.len(),
            name == p@.subrange(b as int, e as int),
            last_dot(name, name.len() as int) == last_dot(name, n - b),
        decreases n,
    {
        assert(name[n - 1 - b] == p@[n - 1]);
        n -= 1;
    }
    if n > b {
        assert(name[n - 1 - b] == p@[n - 1]);
    }
    if n - b > 1 {
        Some(n - 1)
    } else {
        None
    }
}

/// The final component of `path`, or `None` where it names no file.
pub fn file_name(path: &str) -> (name: Option<String>)
    ensures
        match name {
            Some(n) => file_name_of(path@) == Some(n@),
            None => file_name_of(path@) is None,
        },
{
    let p = chars_of(path);
    match find_file_name(&p) {
        Some((b, e)) => {
            let mut out: Vec<char> = Vec::new();
            append_range(&mut out, &p, b, e);
            Some(string_of(&out))
        },
        None => None,
    }
}

/// The stem of the file that `path` names, as characters.
pub fn stem_chars(path: &Vec<char>) -> (stem: Option<Vec<char>>)
    ensures
        match stem {
            Some(s) => file_stem_of(path@) == Some(s@),
            None => file_stem_of(path@) is None,
        },
{
    match find_file_name(path) {
        Some((b, e)) => {
            let end = match find_parting_dot(path, b, e) {
                Some(d) => d,
                None => e,
            };
            let mut out: Vec<char> = Vec::new();
            append_range(&mut out, path, b, end);
            assert(path@.subrange(b as int, e as int).take(end - b) == path@.subrange(
                b as int,
                end as int,
            ));
            Some(out)
        },
        None => None,
    }
}

/// The extension of the file that `path` names, as characters.
pub fn extension_chars(path: &Vec<char>) -> (ext: Option<Vec<char>>)
    ensures
        match ext {
            Some(x) => extension_of(path@) == Some(x@),
            None => extension_of(path@) is None,
        },
{
    match find_file_name(path) {
        Some((b, e)) => {
            match find_parting_dot(path, b, e) {
                Some(d) => {
                    let mut out: Vec<char> = Vec::new();
                    append_range(&mut out, path, d + 1, e);
                    assert(path@.subrange(b as int, e as int).skip(d + 1 - b) == path@.subrange(
                        d + 1,
                        e as int,
                    ));
                    Some(out)
                },
                None => None,
            }
        },
        None => None,
    }
}

/// The file name of `path` without its extension, or `None` where `path`
/// names no file.
pub fn file_stem(path: &str) -> (stem: Option<String>)
    ensures
        match stem {
            Some(s) => file_stem_of(path@) == Some(s@),
            None => file_stem_of(path@) is None,
        },
{
    let p = chars_of(path);
    match stem_chars(&p) {
        Some(s) => Some(string_of(&s)),
        None => None,
    }
}

/// The extension of the file name of `path`, or `None` where there is none.
pub fn extension(path: &str) -> (ext: Option<String>)
    ensures
        match ext {
            Some(x) => extension_of(path@) == Some(x@),
            None => extension_of(path@) is None,
        },
{
    let p = chars_of(path);
    match extension_chars(&p) {
        Some(x) => Some(string_of(&x)),
        None => None,
    }
}

/// The path of `name` below the directory `base`. A `name` that begins at
/// the root stands for itself.
pub open spec fn joined(base: Seq<char>, name: Seq<char>) -> Seq<char> {
    if name.len() > 0 && name[0] == '/' {
        name
    } else if base.len() == 0 || base.last() == '/' {
        base + name
    } else {
        base + seq!['/'] + name
    }
}

/// Joins `name` to the directory `base`.
pub fn join_chars(base: &Vec<char>, name: &Vec<char>) -> (path: Vec<char>)
    ensures
        path@ == joined(base@, name@),
{
    let mut out: Vec<char> = Vec::new();
    if name.len() > 0 && name[0] == '/' {
        append_range(&mut out, name, 0, name.len());
        assert(name@.subrange(0, name.len() as int) == name@);
        return out;
    }
    append_range(&mut out, base, 0, base.len());
    assert(base@.subrange(0, base.len() as int) == base@);
    if base.len() > 0 && base[base.len() - 1] != '/' {
        out.push('/');
    }
    append_range(&mut out, name, 0, name.len());
    assert(name@.subrange(0, name.len() as int) == name@);
    out
}

/// The path of `name` below the directory `base`.
pub fn join_path(base: &str, name: &str) -> (path: String)
    ensures
        path@ == joined(base@, name@),
{
    let b = chars_of(base);
    let n = chars_of(name);
    let out = join_chars(&b, &n);
    string_of(&out)
}

} // verus!
