//! Character-sequence helpers: the string operations the library needs,
//! specified over `Seq<char>` and implemented over `Vec<char>`.
use vstd::prelude::*;

verus! {

// ---------------------------------------------------------------------------
// Specification
// ---------------------------------------------------------------------------

/// Unicode `White_Space`, the set that `char::is_whitespace` and `str::trim` use.
pub open spec fn is_ws(c: char) -> bool {
    ||| ('\t' as u32 <= c as u32 && c as u32 <= '\r' as u32)
    ||| c == ' '
    ||| c == '\u{85}'
    ||| c == '\u{a0}'
    ||| c == '\u{1680}'
    ||| (0x2000u32 <= c as u32 && c as u32 <= 0x200au32)
    ||| c == '\u{2028}'
    ||| c == '\u{2029}'
    ||| c == '\u{202f}'
    ||| c == '\u{205f}'
    ||| c == '\u{3000}'
}

/// A class of characters that the trimming operations strip.
#[derive(Clone, Copy)]
pub enum CharClass {
    Whitespace,
    Exactly(char),
    /// `\n` and `\r`.
    LineBreak,
}

pub open spec fn in_class(cls: CharClass, c: char) -> bool {
    match cls {
        CharClass::Whitespace => is_ws(c),
        CharClass::Exactly(x) => c == x,
        CharClass::LineBreak => c == '\n' || c == '\r',
    }
}

/// `s` without its longest prefix of characters in `cls`.
pub open spec fn drop_lead(s: Seq<char>, cls: CharClass) -> Seq<char>
    decreases s.len(),
{
    if s.len() > 0 && in_class(cls, s[0]) {
        drop_lead(s.drop_first(), cls)
    } else {
        s
    }
}

/// `s` without its longest suffix of characters in `cls`.
pub open spec fn drop_trail(s: Seq<char>, cls: CharClass) -> Seq<char>
    decreases s.len(),
{
    if s.len() > 0 && in_class(cls, s.last()) {
        drop_trail(s.drop_last(), cls)
    } else {
        s
    }
}

/// `str::trim_start`.
pub open spec fn trim_start(s: Seq<char>) -> Seq<char> {
    drop_lead(s, CharClass::Whitespace)
}

/// `str::trim_end`.
pub open spec fn trim_end(s: Seq<char>) -> Seq<char> {
    drop_trail(s, CharClass::Whitespace)
}

/// `str::trim`.
pub open spec fn trim(s: Seq<char>) -> Seq<char> {
    trim_end(trim_start(s))
}

/// `p` occurs in `s` starting at index `i`.
pub open spec fn matches_at(s: Seq<char>, p: Seq<char>, i: int) -> bool {
    0 <= i && i + p.len() <= s.len() && s.subrange(i, i + p.len()) == p
}

/// The first occurrence of `p` in `s` at an index of at least `k`.
pub open spec fn find_from(s: Seq<char>, p: Seq<char>, k: int) -> Option<int>
    decreases s.len() + 1 - k,
{
    if k < 0 || k + p.len() > s.len() {
        None
    } else if matches_at(s, p, k) {
        Some(k)
    } else {
        find_from(s, p, k + 1)
    }
}

/// The first occurrence of `p` in `s` (`str::find`).
pub open spec fn find(s: Seq<char>, p: Seq<char>) -> Option<int> {
    find_from(s, p, 0)
}

/// The last occurrence of `p` in `s` at an index of at most `k`.
pub open spec fn rfind_to(s: Seq<char>, p: Seq<char>, k: int) -> Option<int>
    decreases k + 1,
{
    if k < 0 {
        None
    } else if matches_at(s, p, k) {
        Some(k)
    } else {
        rfind_to(s, p, k - 1)
    }
}

/// The last occurrence of `p` in `s` (`str::rfind`).
pub open spec fn rfind(s: Seq<char>, p: Seq<char>) -> Option<int> {
    rfind_to(s, p, s.len() - p.len())
}

/// `str::contains`.
pub open spec fn contains(s: Seq<char>, p: Seq<char>) -> bool {
    find(s, p) is Some
}

/// `str::starts_with`.
pub open spec fn starts_with(s: Seq<char>, p: Seq<char>) -> bool {
    p.len() <= s.len() && s.take(p.len() as int) == p
}

/// `str::ends_with`.
pub open spec fn ends_with(s: Seq<char>, p: Seq<char>) -> bool {
    p.len() <= s.len() && s.skip(s.len() - p.len()) == p
}

/// `str::strip_prefix`.
pub open spec fn strip_prefix(s: Seq<char>, p: Seq<char>) -> Option<Seq<char>> {
    if starts_with(s, p) {
        Some(s.skip(p.len() as int))
    } else {
        None
    }
}

/// `str::split_once`: the text around the first occurrence of `p`.
pub open spec fn split_once(s: Seq<char>, p: Seq<char>) -> Option<(Seq<char>, Seq<char>)> {
    match find(s, p) {
        Some(i) => Some((s.take(i), s.skip(i + p.len()))),
        None => None,
    }
}

/// `str::rsplit_once`: the text around the last occurrence of `p`.
pub open spec fn rsplit_once(s: Seq<char>, p: Seq<char>) -> Option<(Seq<char>, Seq<char>)> {
    match rfind(s, p) {
        Some(i) => Some((s.take(i), s.skip(i + p.len()))),
        None => None,
    }
}

/// `str::replace` with a non-empty pattern: every non-overlapping occurrence
/// of `p`, left to right, is replaced by `r`.
pub open spec fn replace(s: Seq<char>, p: Seq<char>, r: Seq<char>) -> Seq<char>
    decreases s.len(),
{
    if p.len() == 0 {
        s
    } else {
        match find(s, p) {
            Some(i) => if 0 <= i && i + p.len() <= s.len() {
                s.take(i) + r + replace(s.skip(i + p.len()), p, r)
            } else {
                s
            },
            None => s,
        }
    }
}

// ---------------------------------------------------------------------------
// Lemmas
// ---------------------------------------------------------------------------

pub proof fn lemma_find_from_bounds(s: Seq<char>, p: Seq<char>, k: int)
    requires
        0 <= k,
    ensures
        find_from(s, p, k) matches Some(i) ==> k <= i && matches_at(s, p, i),
        find_from(s, p, k) matches Some(i) ==> forall|j: int| k <= j < i ==> !matches_at(s, p, j),
        find_from(s, p, k) is None ==> forall|j: int| k <= j ==> !matches_at(s, p, j),
    decreases s.len() + 1 - k,
{
    if k + p.len() > s.len() {
    } else if matches_at(s, p, k) {
    } else {
        lemma_find_from_bounds(s, p, k + 1);
    }
}

pub proof fn lemma_rfind_to_bounds(s: Seq<char>, p: Seq<char>, k: int)
    ensures
        rfind_to(s, p, k) matches Some(i) ==> i <= k && matches_at(s, p, i),
        rfind_to(s, p, k) matches Some(i) ==> forall|j: int| i < j <= k ==> !matches_at(s, p, j),
        rfind_to(s, p, k) is None ==> forall|j: int| j <= k ==> !matches_at(s, p, j),
    decreases k + 1,
{
    if k < 0 {
    } else if matches_at(s, p, k) {
    } else {
        lemma_rfind_to_bounds(s, p, k - 1);
    }
}

/// What is left after stripping leading characters of `cls` starts with
/// none of them.
pub proof fn lemma_drop_lead_head(s: Seq<char>, cls: CharClass)
    ensures
        drop_lead(s, cls).len() == 0 || !in_class(cls, drop_lead(s, cls)[0]),
    decreases s.len(),
{
    if s.len() > 0 && in_class(cls, s[0]) {
        lemma_drop_lead_head(s.drop_first(), cls);
    }
}

/// Stripping trailing characters of `cls` leaves a prefix that ends in
/// none of them.
pub proof fn lemma_drop_trail_prefix(s: Seq<char>, cls: CharClass)
    ensures
        drop_trail(s, cls).len() <= s.len(),
        drop_trail(s, cls) == s.take(drop_trail(s, cls).len() as int),
        drop_trail(s, cls).len() == 0 || !in_class(cls, drop_trail(s, cls).last()),
    decreases s.len(),
{
    if s.len() > 0 && in_class(cls, s.last()) {
        lemma_drop_trail_prefix(s.drop_last(), cls);
        let r = drop_trail(s.drop_last(), cls);
        assert(s.drop_last().take(r.len() as int) =~= s.take(r.len() as int));
    } else {
        assert(s.take(s.len() as int) =~= s);
    }
}

/// `s` neither starts nor ends with whitespace.
pub open spec fn trimmed(s: Seq<char>) -> bool {
    s.len() == 0 || (!is_ws(s[0]) && !is_ws(s.last()))
}

/// Trimming leaves text that neither starts nor ends with whitespace.
pub proof fn lemma_trim_is_trimmed(s: Seq<char>)
    ensures
        trimmed(trim(s)),
{
    let a = trim_start(s);
    lemma_drop_lead_head(s, CharClass::Whitespace);
    lemma_drop_trail_prefix(a, CharClass::Whitespace);
    let t = trim(s);
    if t.len() > 0 {
        assert(t[0] == a.take(t.len() as int)[0]);
    }
}

/// Text that neither starts nor ends with whitespace is its own trim.
pub proof fn lemma_trim_of_trimmed(s: Seq<char>)
    requires
        trimmed(s),
    ensures
        trim(s) == s,
{
    assert(trim_start(s) == s);
    if s.len() > 0 {
        assert(drop_trail(s, CharClass::Whitespace) == s);
    }
}

/// Trimming twice is trimming once.
pub proof fn lemma_trim_idempotent(s: Seq<char>)
    ensures
        trim(trim(s)) == trim(s),
{
    lemma_trim_is_trimmed(s);
    lemma_trim_of_trimmed(trim(s));
}

/// `q` occurs somewhere in `s`.
pub open spec fn occurs(s: Seq<char>, q: Seq<char>) -> bool {
    exists|j: int| #[trigger] matches_at(s, q, j)
}

proof fn lemma_matches_at_char(s: Seq<char>, q: Seq<char>, j: int, k: int)
    requires
        matches_at(s, q, j),
        0 <= k < q.len(),
    ensures
        s[j + k] == q[k],
{
    assert(s.subrange(j, j + q.len())[k] == q[k]);
}

/// Putting `r` between two texts without `q` gives none, when `q` cannot
/// start inside `r` nor run into it.
proof fn lemma_no_match_around(a: Seq<char>, r: Seq<char>, b: Seq<char>, q: Seq<char>)
    requires
        q.len() > 0,
        r.len() > 0,
        !occurs(a, q),
        !occurs(b, q),
        !r.contains(q[0]),
        !q.contains(r[0]),
    ensures
        !occurs(a + r + b, q),
{
    let s = a + r + b;
    assert forall|j: int| !#[trigger] matches_at(s, q, j) by {
        if matches_at(s, q, j) {
            if j < a.len() {
                if j + q.len() <= a.len() {
                    assert(a.subrange(j, j + q.len()) =~= s.subrange(j, j + q.len()));
                    assert(matches_at(a, q, j));
                } else {
                    let k = a.len() - j;
                    lemma_matches_at_char(s, q, j, k);
                    assert(s[a.len() as int] == r[0]);
                    assert(q[k] == r[0]);
                    assert(q.contains(r[0]));
                }
            } else if j < a.len() + r.len() {
                lemma_matches_at_char(s, q, j, 0);
                assert(s[j] == r[j - a.len()]);
                assert(r.contains(q[0]));
            } else {
                let j2 = j - a.len() - r.len();
                assert(b.subrange(j2, j2 + q.len()) =~= s.subrange(j, j + q.len()));
                assert(matches_at(b, q, j2));
            }
        }
    }
}

proof fn lemma_occurs_in_parts(s: Seq<char>, q: Seq<char>, i: int)
    requires
        !occurs(s, q),
        0 <= i <= s.len(),
    ensures
        !occurs(s.take(i), q),
        !occurs(s.skip(i), q),
{
    assert forall|j: int| !#[trigger] matches_at(s.take(i), q, j) by {
        if matches_at(s.take(i), q, j) {
            assert(s.subrange(j, j + q.len()) =~= s.take(i).subrange(j, j + q.len()));
            assert(matches_at(s, q, j));
        }
    }
    assert forall|j: int| !#[trigger] matches_at(s.skip(i), q, j) by {
        if matches_at(s.skip(i), q, j) {
            assert(s.subrange(i + j, i + j + q.len()) =~= s.skip(i).subrange(j, j + q.len()));
            assert(matches_at(s, q, i + j));
        }
    }
}

/// Replacing `p` by `r` leaves no `p` behind, when `p` cannot start inside
/// `r` nor run into it.
pub proof fn lemma_replace_removes(s: Seq<char>, p: Seq<char>, r: Seq<char>)
    requires
        p.len() > 0,
        r.len() > 0,
        !r.contains(p[0]),
        !p.contains(r[0]),
    ensures
        !occurs(replace(s, p, r), p),
    decreases s.len(),
{
    lemma_find_from_bounds(s, p, 0);
    match find(s, p) {
        Some(i) => {
            let a = s.take(i);
            let rest = s.skip(i + p.len());
            assert forall|j: int| !#[trigger] matches_at(a, p, j) by {
                if matches_at(a, p, j) {
                    assert(s.subrange(j, j + p.len()) =~= a.subrange(j, j + p.len()));
                    assert(matches_at(s, p, j));
                }
            }
            lemma_replace_removes(rest, p, r);
            lemma_no_match_around(a, r, replace(rest, p, r), p);
        },
        None => {},
    }
}

/// Replacing `p` by `r` adds no `q`, when `q` cannot start inside `r` nor
/// run into it.
pub proof fn lemma_replace_keeps_absent(s: Seq<char>, p: Seq<char>, r: Seq<char>, q: Seq<char>)
    requires
        p.len() > 0,
        q.len() > 0,
        r.len() > 0,
        !occurs(s, q),
        !r.contains(q[0]),
        !q.contains(r[0]),
    ensures
        !occurs(replace(s, p, r), q),
    decreases s.len(),
{
    lemma_find_from_bounds(s, p, 0);
    match find(s, p) {
        Some(i) => {
            let rest = s.skip(i + p.len());
            lemma_occurs_in_parts(s, q, i);
            lemma_occurs_in_parts(s, q, i + p.len());
            lemma_replace_keeps_absent(rest, p, r, q);
            lemma_no_match_around(s.take(i), r, replace(rest, p, r), q);
        },
        None => {},
    }
}

/// Text without the first character of `q` holds no `q`.
pub proof fn lemma_no_first_char(s: Seq<char>, q: Seq<char>)
    requires
        q.len() > 0,
        !s.contains(q[0]),
    ensures
        !occurs(s, q),
{
    assert forall|j: int| !#[trigger] matches_at(s, q, j) by {
        if matches_at(s, q, j) {
            lemma_matches_at_char(s, q, j, 0);
            assert(s[j] == q[0]);
        }
    }
}

/// A pattern whose first character is not in `t` occurs in `t + e` only
/// where it occurs in `e`.
pub proof fn lemma_occurs_after(t: Seq<char>, e: Seq<char>, q: Seq<char>)
    requires
        q.len() > 0,
        !t.contains(q[0]),
        !occurs(e, q),
    ensures
        !occurs(t + e, q),
{
    let s = t + e;
    assert forall|j: int| !#[trigger] matches_at(s, q, j) by {
        if matches_at(s, q, j) {
            lemma_matches_at_char(s, q, j, 0);
            if j < t.len() {
                assert(t[j] == q[0]);
            } else {
                let k = j - t.len();
                assert(e.subrange(k, k + q.len()) =~= s.subrange(j, j + q.len()));
                assert(matches_at(e, q, k));
            }
        }
    }
}

/// Removing `e` from `t + e`, where `t` lacks the first character of `e`,
/// gives `t`.
pub proof fn lemma_remove_tail(t: Seq<char>, e: Seq<char>)
    requires
        e.len() > 0,
        !t.contains(e[0]),
    ensures
        replace(t + e, e, Seq::empty()) == t,
{
    let s = t + e;
    let n = t.len() as int;
    assert(s.subrange(n, n + e.len()) =~= e);
    lemma_find_from_some(s, e, 0, n);
    lemma_find_from_bounds(s, e, 0);
    let i = find(s, e)->0;
    lemma_matches_at_char(s, e, i, 0);
    if i < n {
        assert(t[i] == e[0]);
    }
    assert(i == n);
    assert(s.take(n) =~= t);
    assert(s.skip(n + e.len()) =~= Seq::<char>::empty());
    lemma_find_from_bounds(Seq::<char>::empty(), e, 0);
    assert(replace(Seq::<char>::empty(), e, Seq::empty()) == Seq::<char>::empty());
    assert(t + Seq::<char>::empty() + Seq::<char>::empty() =~= t);
}

/// Splitting at a pattern that does not occur finds nothing, from either end.
pub proof fn lemma_split_absent(s: Seq<char>, q: Seq<char>)
    requires
        !occurs(s, q),
    ensures
        split_once(s, q) is None,
        rsplit_once(s, q) is None,
{
    lemma_find_from_bounds(s, q, 0);
    lemma_rfind_to_bounds(s, q, s.len() - q.len());
}

/// Replacing a pattern that does not occur changes nothing.
pub proof fn lemma_replace_absent(s: Seq<char>, p: Seq<char>, r: Seq<char>)
    requires
        !occurs(s, p),
    ensures
        replace(s, p, r) == s,
{
    lemma_find_from_bounds(s, p, 0);
}

/// Replacing with text that neither starts nor ends with whitespace keeps
/// text that neither starts nor ends with whitespace so.
pub proof fn lemma_replace_keeps_trimmed(s: Seq<char>, p: Seq<char>, r: Seq<char>)
    requires
        trimmed(s),
        r.len() > 0,
        !is_ws(r[0]),
        !is_ws(r.last()),
    ensures
        trimmed(replace(s, p, r)),
{
    lemma_find_from_bounds(s, p, 0);
    if p.len() > 0 {
        match find(s, p) {
            Some(i) => {
                let rest = s.skip(i + p.len());
                if rest.len() > 0 {
                    assert(rest.last() == s.last());
                }
                let out = replace(s, p, r);
                let tail = replace(rest, p, r);
                assert(out == s.take(i) + r + tail);
                if i > 0 {
                    assert(out[0] == s[0]);
                } else {
                    assert(out[0] == r[0]);
                }
                if tail.len() > 0 {
                    lemma_replace_keeps_last(rest, p, r);
                    assert(out.last() == tail.last());
                } else {
                    assert(out.last() == r.last());
                }
            },
            None => {},
        }
    }
}

/// Replacing with text that does not end in whitespace keeps text that
/// does not end in whitespace so.
proof fn lemma_replace_keeps_last(s: Seq<char>, p: Seq<char>, r: Seq<char>)
    requires
        s.len() == 0 || !is_ws(s.last()),
        r.len() > 0,
        !is_ws(r.last()),
    ensures
        replace(s, p, r).len() == 0 || !is_ws(replace(s, p, r).last()),
    decreases s.len(),
{
    lemma_find_from_bounds(s, p, 0);
    if p.len() > 0 {
        match find(s, p) {
            Some(i) => {
                let rest = s.skip(i + p.len());
                if rest.len() > 0 {
                    assert(rest.last() == s.last());
                }
                lemma_replace_keeps_last(rest, p, r);
                let tail = replace(rest, p, r);
                let out = replace(s, p, r);
                assert(out == s.take(i) + r + tail);
                if tail.len() > 0 {
                    assert(out.last() == tail.last());
                } else {
                    assert(out.last() == r.last());
                }
            },
            None => {},
        }
    }
}

// ---------------------------------------------------------------------------
// Executable operations
// ---------------------------------------------------------------------------

/// Appends one character to a string (`String::push`).
#[verifier::external_body]
pub(crate) fn push_char(s: &mut String, c: char)
    ensures
        final(s)@ == old(s)@.push(c),
{
    s.push(c);
}

/// `char::is_whitespace`.
pub fn is_ws_char(c: char) -> (b: bool)
    ensures
        b == is_ws(c),
{
    let u = c as u32;
    (9 <= u && u <= 13) || u == 32 || u == 0x85 || u == 0xa0 || u == 0x1680 || (0x2000 <= u && u
        <= 0x200a) || u == 0x2028 || u == 0x2029 || u == 0x202f || u == 0x205f || u == 0x3000
}

pub fn in_class_char(cls: CharClass, c: char) -> (b: bool)
    ensures
        b == in_class(cls, c),
{
    match cls {
        CharClass::Whitespace => is_ws_char(c),
        CharClass::Exactly(x) => c == x,
        CharClass::LineBreak => c == '\n' || c == '\r',
    }
}

/// The characters of a string slice, in order.
pub fn to_chars(s: &str) -> (r: Vec<char>)
    ensures
        r@ == s@,
{
    let n = s.unicode_len();
    let mut v: Vec<char> = Vec::new();
    let mut i: usize = 0;
    while i < n
        invariant
            n == s@.len(),
            i <= n,
            v@ == s@.take(i as int),
        decreases n - i,
    {
        let c = s.get_char(i);
        v.push(c);
        i = i + 1;
        assert(v@ =~= s@.take(i as int));
    }
    assert(v@ =~= s@);
    v
}

/// A string holding the given characters.
pub fn from_chars(v: &Vec<char>) -> (r: String)
    ensures
        r@ == v@,
{
    let mut s = String::new();
    let mut i: usize = 0;
    while i < v.len()
        invariant
            i <= v.len(),
            s@ == v@.take(i as int),
        decreases v.len() - i,
    {
        push_char(&mut s, v[i]);
        i = i + 1;
        assert(s@ =~= v@.take(i as int));
    }
    assert(v@.take(v@.len() as int) =~= v@);
    s
}

/// Appends every character of `a` to `out`.
pub fn push_all(out: &mut Vec<char>, a: &Vec<char>)
    ensures
        final(out)@ == old(out)@ + a@,
{
    let mut i: usize = 0;
    while i < a.len()
        invariant
            i <= a.len(),
            out@ == old(out)@ + a@.take(i as int),
        decreases a.len() - i,
    {
        out.push(a[i]);
        i = i + 1;
        assert(out@ =~= old(out)@ + a@.take(i as int));
    }
    assert(a@.take(a@.len() as int) =~= a@);
}

/// Appends every character of `a` to `out`.
pub fn push_str_chars(out: &mut Vec<char>, a: &str)
    ensures
        final(out)@ == old(out)@ + a@,
{
    let v = to_chars(a);
    push_all(out, &v);
}

/// `v[lo..hi]` as a fresh vector.
pub fn slice_of(v: &Vec<char>, lo: usize, hi: usize) -> (r: Vec<char>)
    requires
        lo <= hi <= v.len(),
    ensures
        r@ == v@.subrange(lo as int, hi as int),
{
    let mut r: Vec<char> = Vec::new();
    let mut i = lo;
    while i < hi
        invariant
            lo <= i <= hi <= v.len(),
            r@ == v@.subrange(lo as int, i as int),
        decreases hi - i,
    {
        r.push(v[i]);
        i = i + 1;
        assert(r@ =~= v@.subrange(lo as int, i as int));
    }
    r
}

/// A copy of `v`.
pub fn copy_chars(v: &Vec<char>) -> (r: Vec<char>)
    ensures
        r@ == v@,
{
    let r = slice_of(v, 0, v.len());
    assert(v@.subrange(0, v@.len() as int) =~= v@);
    r
}

/// `a + b` as a fresh vector.
pub fn concat(a: &Vec<char>, b: &Vec<char>) -> (r: Vec<char>)
    ensures
        r@ == a@ + b@,
{
    let mut r = copy_chars(a);
    push_all(&mut r, b);
    r
}

/// Drops the longest prefix of characters in `cls`.
pub fn drop_lead_chars(v: &Vec<char>, cls: CharClass) -> (r: Vec<char>)
    ensures
        r@ == drop_lead(v@, cls),
{
    let mut i: usize = 0;
    assert(v@.skip(0) =~= v@);
    while i < v.len() && in_class_char(cls, v[i])
        invariant
            i <= v.len(),
            drop_lead(v@, cls) == drop_lead(v@.skip(i as int), cls),
        decreases v.len() - i,
    {
        assert(v@.skip(i as int).drop_first() =~= v@.skip(i + 1));
        i = i + 1;
    }
    assert(v@.skip(i as int) =~= v@.subrange(i as int, v@.len() as int));
    slice_of(v, i, v.len())
}

/// Drops the longest suffix of characters in `cls`.
pub fn drop_trail_chars(v: &Vec<char>, cls: CharClass) -> (r: Vec<char>)
    ensures
        r@ == drop_trail(v@, cls),
{
    let mut j: usize = v.len();
    assert(v@.take(j as int) =~= v@);
    while j > 0 && in_class_char(cls, v[j - 1])
        invariant
            j <= v.len(),
            drop_trail(v@, cls) == drop_trail(v@.take(j as int), cls),
        decreases j,
    {
        assert(v@.take(j as int).drop_last() =~= v@.take(j - 1));
        j = j - 1;
    }
    assert(v@.take(j as int) =~= v@.subrange(0, j as int));
    slice_of(v, 0, j)
}

/// `str::trim`.
pub fn trim_chars(v: &Vec<char>) -> (r: Vec<char>)
    ensures
        r@ == trim(v@),
{
    let a = drop_lead_chars(v, CharClass::Whitespace);
    drop_trail_chars(&a, CharClass::Whitespace)
}

/// Whether `p` occurs in `v` at index `k`.
pub fn matches_at_chars(v: &Vec<char>, p: &Vec<char>, k: usize) -> (b: bool)
    requires
        k + p.len() <= v.len(),
    ensures
        b == matches_at(v@, p@, k as int),
{
    let mut j: usize = 0;
    while j < p.len()
        invariant
            k + p.len() <= v.len(),
            j <= p.len(),
            forall|t: int| 0 <= t < j ==> v@[k + t] == p@[t],
        decreases p.len() - j,
    {
        if v[k + j] != p[j] {
            assert(v@.subrange(k as int, k + p.len())[j as int] != p@[j as int]);
            return false;
        }
        j = j + 1;
    }
    assert(v@.subrange(k as int, k + p.len()) =~= p@);
    true
}

/// `str::find`.
pub fn find_chars(v: &Vec<char>, p: &Vec<char>) -> (r: Option<usize>)
    ensures
        r matches Some(i) ==> find(v@, p@) == Some(i as int),
        r is None ==> find(v@, p@) is None,
{
    if p.len() > v.len() {
        return None;
    }
    let last = v.len() - p.len();
    let mut k: usize = 0;
    loop
        invariant
            last == v.len() - p.len(),
            k <= last,
            find(v@, p@) == find_from(v@, p@, k as int),
        decreases last - k,
    {
        if matches_at_chars(v, p, k) {
            return Some(k);
        }
        if k == last {
            assert(find_from(v@, p@, k + 1) is None);
            return None;
        }
        k = k + 1;
    }
}

/// `str::rfind`.
pub fn rfind_chars(v: &Vec<char>, p: &Vec<char>) -> (r: Option<usize>)
    ensures
        r matches Some(i) ==> rfind(v@, p@) == Some(i as int),
        r is None ==> rfind(v@, p@) is None,
{
    if p.len() > v.len() {
        return None;
    }
    let mut k: usize = v.len() - p.len();
    loop
        invariant
            p.len() <= v.len(),
            k <= v.len() - p.len(),
            rfind(v@, p@) == rfind_to(v@, p@, k as int),
        decreases k,
    {
        if matches_at_chars(v, p, k) {
            return Some(k);
        }
        if k == 0 {
            assert(rfind_to(v@, p@, -1) is None);
            return None;
        }
        k = k - 1;
    }
}

/// `str::starts_with`.
pub fn starts_with_chars(v: &Vec<char>, p: &Vec<char>) -> (b: bool)
    ensures
        b == starts_with(v@, p@),
{
    if p.len() > v.len() {
        return false;
    }
    let b = matches_at_chars(v, p, 0);
    assert(v@.subrange(0, p@.len() as int) =~= v@.take(p@.len() as int));
    b
}

/// `str::ends_with`.
pub fn ends_with_chars(v: &Vec<char>, p: &Vec<char>) -> (b: bool)
    ensures
        b == ends_with(v@, p@),
{
    if p.len() > v.len() {
        return false;
    }
    let b = matches_at_chars(v, p, v.len() - p.len());
    assert(v@.subrange(v@.len() - p@.len(), v@.len() as int) =~= v@.skip(v@.len() - p@.len()));
    b
}

/// `str::replace` with a non-empty pattern.
pub fn replace_chars(v: &Vec<char>, p: &Vec<char>, r: &Vec<char>) -> (out: Vec<char>)
    requires
        p.len() > 0,
    ensures
        out@ == replace(v@, p@, r@),
{
    let mut out: Vec<char> = Vec::new();
    let mut rest = copy_chars(v);
    loop
        invariant
            p.len() > 0,
            out@ + replace(rest@, p@, r@) == replace(v@, p@, r@),
        decreases rest.len(),
    {
        match find_chars(&rest, p) {
            None => {
                push_all(&mut out, &rest);
                return out;
            },
            Some(i) => {
                proof {
                    lemma_find_from_bounds(rest@, p@, 0);
                }
                let head = slice_of(&rest, 0, i);
                let tail = slice_of(&rest, i + p.len(), rest.len());
                proof {
                    assert(head@ =~= rest@.take(i as int));
                    assert(tail@ =~= rest@.skip(i + p@.len()));
                    assert(out@ + replace(rest@, p@, r@) =~= out@ + head@ + r@ + replace(
                        tail@,
                        p@,
                        r@,
                    ));
                }
                push_all(&mut out, &head);
                push_all(&mut out, r);
                rest = tail;
            },
        }
    }
}

/// `str::replace` with a literal, non-empty pattern and replacement.
pub fn replace_lit(v: &Vec<char>, p: &str, r: &str) -> (out: Vec<char>)
    requires
        p@.len() > 0,
    ensures
        out@ == replace(v@, p@, r@),
{
    let pv = to_chars(p);
    let rv = to_chars(r);
    replace_chars(v, &pv, &rv)
}

/// The last index of `c` in `v`.
pub fn rfind_char(v: &Vec<char>, c: char) -> (r: Option<usize>)
    ensures
        r matches Some(i) ==> i < v.len() && rfind(v@, seq![c]) == Some(i as int),
        r is None ==> rfind(v@, seq![c]) is None,
{
    let p = vec![c];
    assert(p@ =~= seq![c]);
    let r = rfind_chars(v, &p);
    proof {
        lemma_rfind_to_bounds(v@, seq![c], v@.len() - 1);
        if r is Some {
            assert(matches_at(v@, seq![c], r->0 as int));
        }
    }
    r
}

/// The first index of `c` in `v`.
pub fn find_char(v: &Vec<char>, c: char) -> (r: Option<usize>)
    ensures
        r matches Some(i) ==> i < v.len() && find(v@, seq![c]) == Some(i as int),
        r is None ==> find(v@, seq![c]) is None,
{
    let p = vec![c];
    assert(p@ =~= seq![c]);
    let r = find_chars(v, &p);
    proof {
        lemma_find_from_bounds(v@, seq![c], 0);
        if r is Some {
            assert(matches_at(v@, seq![c], r->0 as int));
        }
    }
    r
}

/// An occurrence at or after `j` makes `find_from` succeed.
pub proof fn lemma_find_from_some(s: Seq<char>, p: Seq<char>, j: int, k: int)
    requires
        0 <= j <= k,
        matches_at(s, p, k),
    ensures
        find_from(s, p, j) is Some,
    decreases k - j,
{
    if j < k && !matches_at(s, p, j) {
        lemma_find_from_some(s, p, j + 1, k);
    }
}

/// An occurrence at `k` means `s` contains `p`.
pub proof fn lemma_contains_at(s: Seq<char>, p: Seq<char>, k: int)
    requires
        matches_at(s, p, k),
    ensures
        contains(s, p),
{
    lemma_find_from_some(s, p, 0, k);
}

/// `str::strip_prefix` with a literal prefix.
pub fn strip_prefix_lit(v: &Vec<char>, p: &str) -> (r: Option<Vec<char>>)
    ensures
        r matches Some(x) ==> strip_prefix(v@, p@) == Some(x@),
        r is None ==> strip_prefix(v@, p@) is None,
{
    let pv = to_chars(p);
    if starts_with_chars(v, &pv) {
        let x = slice_of(v, pv.len(), v.len());
        assert(x@ =~= v@.skip(p@.len() as int));
        Some(x)
    } else {
        None
    }
}

/// `str::starts_with` with a literal prefix.
pub fn starts_with_lit(v: &Vec<char>, p: &str) -> (b: bool)
    ensures
        b == starts_with(v@, p@),
{
    let pv = to_chars(p);
    starts_with_chars(v, &pv)
}

/// `str::ends_with` with a literal suffix.
pub fn ends_with_lit(v: &Vec<char>, p: &str) -> (b: bool)
    ensures
        b == ends_with(v@, p@),
{
    let pv = to_chars(p);
    ends_with_chars(v, &pv)
}

/// `str::rsplit_once` with a literal separator.
pub fn rsplit_once_lit(v: &Vec<char>, p: &str) -> (r: Option<(Vec<char>, Vec<char>)>)
    ensures
        r matches Some((a, b)) ==> rsplit_once(v@, p@) == Some((a@, b@)),
        r is None ==> rsplit_once(v@, p@) is None,
{
    let pv = to_chars(p);
    match rfind_chars(v, &pv) {
        Some(i) => {
            proof {
                lemma_rfind_to_bounds(v@, p@, v@.len() - p@.len());
                assert(rfind(v@, p@) == Some(i as int));
                assert(matches_at(v@, p@, i as int));
                assert(pv@.len() == p@.len());
                assert(i + pv@.len() <= v@.len());
            }
            let plen = pv.len();
            assert(i + plen <= v.len());
            let a = slice_of(v, 0, i);
            let b = slice_of(v, i + plen, v.len());
            assert(a@ =~= v@.take(i as int));
            assert(b@ =~= v@.skip(i + p@.len()));
            Some((a, b))
        },
        None => None,
    }
}

/// `str::split_once` with a literal separator.
pub fn split_once_lit(v: &Vec<char>, p: &str) -> (r: Option<(Vec<char>, Vec<char>)>)
    ensures
        r matches Some((a, b)) ==> split_once(v@, p@) == Some((a@, b@)),
        r is None ==> split_once(v@, p@) is None,
{
    let pv = to_chars(p);
    match find_chars(v, &pv) {
        Some(i) => {
            proof {
                lemma_find_from_bounds(v@, p@, 0);
                assert(find(v@, p@) == Some(i as int));
                assert(matches_at(v@, p@, i as int));
            }
            let plen = pv.len();
            assert(i + plen <= v.len());
            let a = slice_of(v, 0, i);
            let b = slice_of(v, i + plen, v.len());
            assert(a@ =~= v@.take(i as int));
            assert(b@ =~= v@.skip(i + p@.len()));
            Some((a, b))
        },
        None => None,
    }
}

/// `str::contains` with a literal pattern.
pub fn contains_lit(v: &Vec<char>, p: &str) -> (b: bool)
    ensures
        b == contains(v@, p@),
{
    let pv = to_chars(p);
    find_chars(v, &pv).is_some()
}

/// Character-wise equality of two vectors.
pub fn chars_eq(a: &Vec<char>, b: &Vec<char>) -> (r: bool)
    ensures
        r == (a@ == b@),
{
    if a.len() != b.len() {
        return false;
    }
    let mut i: usize = 0;
    while i < a.len()
        invariant
            a.len() == b.len(),
            i <= a.len(),
            forall|j: int| 0 <= j < i ==> a@[j] == b@[j],
        decreases a.len() - i,
    {
        if a[i] != b[i] {
            return false;
        }
        i = i + 1;
    }
    assert(a@ =~= b@);
    true
}

/// Whether a string slice equals a literal.
pub fn str_eq(a: &str, b: &str) -> (r: bool)
    ensures
        r == (a@ == b@),
{
    chars_eq(&to_chars(a), &to_chars(b))
}

} // verus!
