//! Unix-style paths held as strings: file names, extensions, joining and
//! replacing the file name, with the component rules of `std::path`.
use vstd::prelude::*;
use crate::text::{
    chars_eq, concat, copy_chars, from_chars, push_all, rfind, rfind_char,
    slice_of, to_chars,
};

verus! {

// ---------------------------------------------------------------------------
// Specification
// ---------------------------------------------------------------------------

/// `p` without trailing separators and trailing `/.` components.
pub open spec fn trim_tail(p: Seq<char>) -> Seq<char>
    decreases p.len(),
{
    if p.len() > 0 && p.last() == '/' {
        trim_tail(p.drop_last())
    } else if p.len() >= 2 && p.last() == '.' && p[p.len() - 2] == '/' {
        trim_tail(p.take(p.len() - 2))
    } else {
        p
    }
}

/// The text after the last separator of `q` (all of `q` when it has none).
pub open spec fn last_segment(q: Seq<char>) -> Seq<char> {
    match rfind(q, seq!['/']) {
        Some(i) => q.skip(i + 1),
        None => q,
    }
}

/// `Path::file_name`: the final component when it is a normal one.
pub open spec fn file_name(p: Seq<char>) -> Option<Seq<char>> {
    let s = last_segment(trim_tail(p));
    if s.len() == 0 || s == seq!['.'] || s == seq!['.', '.'] {
        None
    } else {
        Some(s)
    }
}

/// `Path::extension`: the text after the last `.` of the file name, when
/// that `.` is not its first character.
pub open spec fn extension(p: Seq<char>) -> Option<Seq<char>> {
    match file_name(p) {
        Some(f) => match rfind(f, seq!['.']) {
            Some(i) => if i > 0 {
                Some(f.skip(i + 1))
            } else {
                None
            },
            None => None,
        },
        None => None,
    }
}

/// The code of `c` with ASCII upper-case letters mapped to lower case.
pub open spec fn lower_code(c: char) -> u32 {
    if 65 <= c as u32 && c as u32 <= 90 {
        (c as u32 + 32) as u32
    } else {
        c as u32
    }
}

/// `str::eq_ignore_ascii_case`.
pub open spec fn eq_ignore_ascii_case(a: Seq<char>, b: Seq<char>) -> bool {
    a.len() == b.len() && forall|i: int| 0 <= i < a.len() ==> lower_code(a[i]) == lower_code(b[i])
}

/// The path's extension equals `expected`, ignoring ASCII case.
pub open spec fn has_extension(p: Seq<char>, expected: Seq<char>) -> bool {
    match extension(p) {
        Some(e) => eq_ignore_ascii_case(e, expected),
        None => false,
    }
}

/// `Path::join`: an absolute `rest` replaces `base`; otherwise a separator is
/// put between them when `base` is non-empty and does not end in one.
pub open spec fn join(base: Seq<char>, rest: Seq<char>) -> Seq<char> {
    if rest.len() > 0 && rest[0] == '/' {
        rest
    } else if base.len() > 0 && base.last() != '/' {
        base + seq!['/'] + rest
    } else {
        base + rest
    }
}

/// Length of the part of `q` that parent computation never trims: a root
/// separator, or a leading `.` component.
pub open spec fn prefix_len(q: Seq<char>) -> int {
    if q.len() > 0 && q[0] == '/' {
        1
    } else if q.len() > 0 && q[0] == '.' && (q.len() == 1 || q[1] == '/') {
        1
    } else {
        0
    }
}

/// Drops trailing separators and `.` components of `x` beyond its first `r` characters.
pub open spec fn trim_parent(x: Seq<char>, r: int) -> Seq<char>
    decreases x.len(),
{
    if x.len() <= r || r < 0 {
        x
    } else if x.last() == '/' {
        trim_parent(x.drop_last(), r)
    } else if x.len() - r >= 2 && x.last() == '.' && x[x.len() - 2] == '/' {
        trim_parent(x.take(x.len() - 2), r)
    } else if x.len() - r == 1 && x.last() == '.' {
        x.take(r)
    } else {
        x
    }
}

/// `Path::parent` of a path whose last component is a normal one.
pub open spec fn parent(p: Seq<char>) -> Seq<char> {
    let q = trim_tail(p);
    match rfind(q, seq!['/']) {
        Some(i) => trim_parent(q.take(i + 1), prefix_len(q)),
        None => Seq::empty(),
    }
}

/// `Path::with_file_name` for a path that has a file name.
pub open spec fn with_file_name(p: Seq<char>, name: Seq<char>) -> Seq<char> {
    join(parent(p), name)
}

// ---------------------------------------------------------------------------
// Executable operations
// ---------------------------------------------------------------------------

fn trim_tail_chars(v: &Vec<char>) -> (r: Vec<char>)
    ensures
        r@ == trim_tail(v@),
{
    let mut n: usize = v.len();
    assert(v@.take(n as int) =~= v@);
    loop
        invariant
            n <= v.len(),
            trim_tail(v@) == trim_tail(v@.take(n as int)),
        ensures
            n <= v.len(),
            trim_tail(v@) == v@.take(n as int),
        decreases n,
    {
        let ghost cur = v@.take(n as int);
        assert(n > 0 ==> cur.last() == v@[n - 1]);
        assert(n >= 2 ==> cur[n - 2] == v@[n - 2]);
        if n > 0 && v[n - 1] == '/' {
            assert(v@.take(n as int).drop_last() =~= v@.take(n - 1));
            n = n - 1;
        } else if n >= 2 && v[n - 1] == '.' && v[n - 2] == '/' {
            assert(v@.take(n as int).take(n - 2) =~= v@.take(n - 2));
            n = n - 2;
        } else {
            break;
        }
    }
    let r = slice_of(v, 0, n);
    assert(r@ =~= v@.take(n as int));
    r
}

fn last_segment_chars(q: &Vec<char>) -> (r: Vec<char>)
    ensures
        r@ == last_segment(q@),
{
    match rfind_char(q, '/') {
        Some(i) => {
            let r = slice_of(q, i + 1, q.len());
            assert(r@ =~= q@.skip(i + 1));
            r
        },
        None => copy_chars(q),
    }
}

pub fn file_name_chars(v: &Vec<char>) -> (r: Option<Vec<char>>)
    ensures
        r matches Some(f) ==> file_name(v@) == Some(f@),
        r is None ==> file_name(v@) is None,
{
    let q = trim_tail_chars(v);
    let s = last_segment_chars(&q);
    if s.len() == 0 || (s.len() == 1 && s[0] == '.') || (s.len() == 2 && s[0] == '.' && s[1] == '.') {
        proof {
            if s.len() == 1 {
                assert(s@ =~= seq!['.']);
            }
            if s.len() == 2 {
                assert(s@ =~= seq!['.', '.']);
            }
        }
        None
    } else {
        proof {
            if s@ == seq!['.'] {
                assert(s@[0] == '.');
            }
            if s@ == seq!['.', '.'] {
                assert(s@[0] == '.' && s@[1] == '.');
            }
        }
        Some(s)
    }
}

/// `Path::file_name`.
pub fn path_file_name(path: &str) -> (r: Option<String>)
    ensures
        r matches Some(f) ==> file_name(path@) == Some(f@),
        r is None ==> file_name(path@) is None,
{
    let v = to_chars(path);
    match file_name_chars(&v) {
        Some(f) => Some(from_chars(&f)),
        None => None,
    }
}

pub fn extension_chars(v: &Vec<char>) -> (r: Option<Vec<char>>)
    ensures
        r matches Some(e) ==> extension(v@) == Some(e@),
        r is None ==> extension(v@) is None,
{
    match file_name_chars(v) {
        Some(f) => {
            match rfind_char(&f, '.') {
                Some(i) => {
                    if i > 0 {
                        let e = slice_of(&f, i + 1, f.len());
                        assert(e@ =~= f@.skip(i + 1));
                        Some(e)
                    } else {
                        None
                    }
                },
                None => None,
            }
        },
        None => None,
    }
}

pub fn lower_code_of(c: char) -> (r: u32)
    ensures
        r == lower_code(c),
{
    let u = c as u32;
    if 65 <= u && u <= 90 {
        u + 32
    } else {
        u
    }
}

/// `str::eq_ignore_ascii_case` on character vectors.
pub fn eq_ignore_ascii_case_chars(a: &Vec<char>, b: &Vec<char>) -> (r: bool)
    ensures
        r == eq_ignore_ascii_case(a@, b@),
{
    if a.len() != b.len() {
        return false;
    }
    let mut i: usize = 0;
    while i < a.len()
        invariant
            a.len() == b.len(),
            i <= a.len(),
            forall|j: int| 0 <= j < i ==> lower_code(a@[j]) == lower_code(b@[j]),
        decreases a.len() - i,
    {
        if lower_code_of(a[i]) != lower_code_of(b[i]) {
            return false;
        }
        i = i + 1;
    }
    true
}

pub fn join_chars(base: &Vec<char>, rest: &Vec<char>) -> (r: Vec<char>)
    ensures
        r@ == join(base@, rest@),
{
    if rest.len() > 0 && rest[0] == '/' {
        copy_chars(rest)
    } else if base.len() > 0 && base[base.len() - 1] != '/' {
        let mut r = copy_chars(base);
        r.push('/');
        push_all(&mut r, rest);
        assert(r@ =~= base@ + seq!['/'] + rest@);
        r
    } else {
        concat(base, rest)
    }
}

/// `Path::join`.
pub fn path_join(base: &str, rest: &str) -> (r: String)
    ensures
        r@ == join(base@, rest@),
{
    let b = to_chars(base);
    let s = to_chars(rest);
    let j = join_chars(&b, &s);
    from_chars(&j)
}

fn trim_parent_chars(x: &Vec<char>, r: usize) -> (out: Vec<char>)
    ensures
        out@ == trim_parent(x@, r as int),
{
    let mut n: usize = x.len();
    assert(x@.take(n as int) =~= x@);
    loop
        invariant
            n <= x.len(),
            trim_parent(x@, r as int) == trim_parent(x@.take(n as int), r as int),
        ensures
            n <= x.len(),
            trim_parent(x@, r as int) == x@.take(n as int),
        decreases n,
    {
        let ghost cur = x@.take(n as int);
        assert(n > 0 ==> cur.last() == x@[n - 1]);
        assert(n >= 2 ==> cur[n - 2] == x@[n - 2]);
        if n <= r {
            break;
        } else if x[n - 1] == '/' {
            assert(cur.drop_last() =~= x@.take(n - 1));
            n = n - 1;
        } else if n - r >= 2 && x[n - 1] == '.' && x[n - 2] == '/' {
            assert(cur.take(n - 2) =~= x@.take(n - 2));
            n = n - 2;
        } else if n - r == 1 && x[n - 1] == '.' {
            assert(cur.take(r as int) =~= x@.take(r as int));
            n = r;
            break;
        } else {
            break;
        }
    }
    let out = slice_of(x, 0, n);
    assert(out@ =~= x@.take(n as int));
    out
}

fn prefix_len_of(q: &Vec<char>) -> (r: usize)
    ensures
        r as int == prefix_len(q@),
{
    if q.len() > 0 && q[0] == '/' {
        1
    } else if q.len() > 0 && q[0] == '.' && (q.len() == 1 || q[1] == '/') {
        1
    } else {
        0
    }
}

pub fn parent_chars(p: &Vec<char>) -> (r: Vec<char>)
    ensures
        r@ == parent(p@),
{
    let q = trim_tail_chars(p);
    match rfind_char(&q, '/') {
        Some(i) => {
            let x = slice_of(&q, 0, i + 1);
            assert(x@ =~= q@.take(i + 1));
            let r = prefix_len_of(&q);
            trim_parent_chars(&x, r)
        },
        None => {
            let e: Vec<char> = Vec::new();
            assert(e@ =~= Seq::<char>::empty());
            e
        },
    }
}

/// `Path::with_file_name` for a path that has a file name.
pub fn path_with_file_name(path: &str, name: &str) -> (r: String)
    ensures
        r@ == with_file_name(path@, name@),
{
    let p = to_chars(path);
    let n = to_chars(name);
    let par = parent_chars(&p);
    let j = join_chars(&par, &n);
    from_chars(&j)
}

/// A path as `std::path::Path` compares paths: by their components. A
/// path has a root when it starts with `/`, starts with a `.` component
/// when (without a root) it is `.` or starts with `./`, and its other
/// components are what lies between separators, with empty ones and `.`
/// ones left out.
pub struct PathKey {
    pub root: bool,
    pub cur_dir: bool,
    pub parts: Seq<Seq<char>>,
}

/// `d` with the component `cur` added, unless it is empty or `.`.
pub open spec fn push_part(d: Seq<Seq<char>>, cur: Seq<char>) -> Seq<Seq<char>> {
    if cur.len() == 0 || cur == seq!['.'] {
        d
    } else {
        d.push(cur)
    }
}

/// The components of `s` that a separator has closed, and the text after
/// the last separator.
pub open spec fn split_parts(s: Seq<char>) -> (Seq<Seq<char>>, Seq<char>)
    decreases s.len(),
{
    if s.len() == 0 {
        (Seq::empty(), Seq::empty())
    } else {
        let (d, cur) = split_parts(s.drop_last());
        if s.last() == '/' {
            (push_part(d, cur), Seq::empty())
        } else {
            (d, cur.push(s.last()))
        }
    }
}

pub open spec fn path_key(p: Seq<char>) -> PathKey {
    let root = p.len() > 0 && p[0] == '/';
    PathKey {
        root: root,
        cur_dir: !root && p.len() > 0 && p[0] == '.' && (p.len() == 1 || p[1] == '/'),
        parts: push_part(split_parts(p).0, split_parts(p).1),
    }
}

/// Two paths are the same path: they have the same components.
pub open spec fn same_path(a: Seq<char>, b: Seq<char>) -> bool {
    path_key(a) == path_key(b)
}

fn push_part_exec(d: &mut Vec<Vec<char>>, cur: Vec<char>)
    ensures
        final(d)@.map_values(|v: Vec<char>| v@) == push_part(old(d)@.map_values(|v: Vec<char>| v@), cur@),
{
    let ghost before = d@;
    let is_dot = cur.len() == 1 && cur[0] == '.';
    proof {
        if cur@ == seq!['.'] {
            assert(cur@[0] == '.');
        }
        if cur.len() == 1 && cur@[0] == '.' {
            assert(cur@ =~= seq!['.']);
        }
    }
    if cur.len() > 0 && !is_dot {
        let ghost c = cur@;
        d.push(cur);
        assert(d@.map_values(|v: Vec<char>| v@) =~= before.map_values(|v: Vec<char>| v@).push(c));
    }
}

/// The components of a path, other than a root or a leading `.`.
fn path_parts(p: &Vec<char>) -> (r: Vec<Vec<char>>)
    ensures
        r@.map_values(|v: Vec<char>| v@) == path_key(p@).parts,
{
    let mut d: Vec<Vec<char>> = Vec::new();
    let mut cur: Vec<char> = Vec::new();
    let mut i: usize = 0;
    assert(p@.take(0) =~= Seq::<char>::empty());
    while i < p.len()
        invariant
            i <= p.len(),
            (d@.map_values(|v: Vec<char>| v@), cur@) == split_parts(p@.take(i as int)),
        decreases p.len() - i,
    {
        assert(p@.take(i + 1).drop_last() =~= p@.take(i as int));
        assert(p@.take(i + 1).last() == p@[i as int]);
        if p[i] == '/' {
            let done = cur;
            cur = Vec::new();
            push_part_exec(&mut d, done);
            assert(cur@ =~= Seq::<char>::empty());
        } else {
            cur.push(p[i]);
        }
        i = i + 1;
    }
    assert(p@.take(p.len() as int) =~= p@);
    push_part_exec(&mut d, cur);
    d
}

/// Whether two paths have the same components, as `Path`'s `==` decides.
pub fn same_path_exec(a: &str, b: &str) -> (r: bool)
    ensures
        r == same_path(a@, b@),
{
    let av = to_chars(a);
    let bv = to_chars(b);
    let a_root = av.len() > 0 && av[0] == '/';
    let b_root = bv.len() > 0 && bv[0] == '/';
    let a_cur = !a_root && av.len() > 0 && av[0] == '.' && (av.len() == 1 || av[1] == '/');
    let b_cur = !b_root && bv.len() > 0 && bv[0] == '.' && (bv.len() == 1 || bv[1] == '/');
    if a_root != b_root || a_cur != b_cur {
        return false;
    }
    let pa = path_parts(&av);
    let pb = path_parts(&bv);
    let ghost ka = pa@.map_values(|v: Vec<char>| v@);
    let ghost kb = pb@.map_values(|v: Vec<char>| v@);
    if pa.len() != pb.len() {
        assert(ka.len() != kb.len());
        return false;
    }
    let mut i: usize = 0;
    while i < pa.len()
        invariant
            i <= pa.len(),
            pa.len() == pb.len(),
            ka == pa@.map_values(|v: Vec<char>| v@),
            kb == pb@.map_values(|v: Vec<char>| v@),
            ka == path_key(a@).parts,
            kb == path_key(b@).parts,
            forall|k: int| 0 <= k < i ==> ka[k] == kb[k],
        decreases pa.len() - i,
    {
        if !chars_eq(&pa[i], &pb[i]) {
            assert(ka[i as int] != kb[i as int]);
            return false;
        }
        i = i + 1;
    }
    assert(ka =~= kb);
    true
}

} // verus!
