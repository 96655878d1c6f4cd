//! Text as sequences of characters: substring search, suffixes, file
//! extensions and the joining of path components.

use vstd::prelude::*;

verus! {

/// `pattern` stands in `text` at position `at`.
pub open spec fn occurs_at(text: Seq<char>, pattern: Seq<char>, at: int) -> bool {
    &&& 0 <= at
    &&& at + pattern.len() <= text.len()
    &&& text.subrange(at, at + pattern.len()) == pattern
}

/// `pattern` stands somewhere in `text`.
pub open spec fn has_substring(text: Seq<char>, pattern: Seq<char>) -> bool {
    exists|at: int| occurs_at(text, pattern, at)
}

/// `text` ends with `suffix`.
pub open spec fn has_suffix(text: Seq<char>, suffix: Seq<char>) -> bool {
    occurs_at(text, suffix, text.len() - suffix.len())
}

/// The file name `name` has the extension `ext`: a stem that is not empty, a
/// dot, and `ext`, which itself holds no dot.
pub open spec fn has_extension(name: Seq<char>, ext: Seq<char>) -> bool {
    &&& !ext.contains('.')
    &&& name.len() > ext.len() + 1
    &&& has_suffix(name, seq!['.'] + ext)
}

/// The path of `name` below the directory `base`. An absolute `name` stands
/// for itself; otherwise the two are joined by one forward slash, which is
/// left out where `base` is empty or already ends with one.
pub open spec fn joined(base: Seq<char>, name: Seq<char>) -> Seq<char> {
    if name.len() > 0 && name[0] == '/' {
        name
    } else if base.len() == 0 || base.last() == '/' {
        base + name
    } else {
        base + seq!['/'] + name
    }
}

/// The characters of `s`, in order.
pub fn chars_of(s: &str) -> (r: Vec<char>)
    ensures
        r@ == s@,
{
    let mut out: Vec<char> = Vec::new();
    for c in it: s.chars()
        invariant
            out@ == s@.take(it.index() as int),
            it.seq() == s@,
    {
        out.push(c);
    }
    out
}

/// Whether `pattern` stands in `text` at position `at`. It does not where
/// it would reach beyond the end of `text`.
pub fn occurs_at_index(text: &Vec<char>, pattern: &Vec<char>, at: usize) -> (b: bool)
    ensures
        b == occurs_at(text@, pattern@, at as int),
{
    if at > text.len() || pattern.len() > text.len() - at {
        return false;
    }
    let mut k: usize = 0;
    while k < pattern.len()
        invariant
            k <= pattern.len(),
            at + pattern.len() <= text.len(),
            forall|j: int| 0 <= j < k ==> text@[at + j] == pattern@[j],
        decreases pattern.len() - k,
    {
        if text[at + k] != pattern[k] {
            assert(text@.subrange(at as int, at + pattern.len())[k as int] != pattern@[k as int]);
            return false;
        }
        k += 1;
    }
    assert(text@.subrange(at as int, at + pattern.len()) =~= pattern@);
    true
}

/// Whether `pattern` stands somewhere in `text`.
pub fn chars_contain(text: &Vec<char>, pattern: &Vec<char>) -> (b: bool)
    ensures
        b == has_substring(text@, pattern@),
{
    if pattern.len() > text.len() {
        return false;
    }
    let last: usize = text.len() - pattern.len();
    let mut at: usize = 0;
    loop
        invariant
            last == text.len() - pattern.len(),
            at <= last,
            forall|i: int| 0 <= i < at ==> !occurs_at(text@, pattern@, i),
        decreases last - at,
    {
        if occurs_at_index(text, pattern, at) {
            return true;
        }
        if at == last {
            return false;
        }
        at += 1;
    }
}

/// Whether `text` ends with `suffix`.
pub fn chars_end_with(text: &Vec<char>, suffix: &Vec<char>) -> (b: bool)
    ensures
        b == has_suffix(text@, suffix@),
{
    if suffix.len() > text.len() {
        return false;
    }
    occurs_at_index(text, suffix, text.len() - suffix.len())
}

/// Whether `pattern` stands somewhere in `text`.
pub fn str_contains(text: &str, pattern: &str) -> (b: bool)
    ensures
        b == has_substring(text@, pattern@),
{
    let t = chars_of(text);
    let p = chars_of(pattern);
    chars_contain(&t, &p)
}

/// Whether `text` ends with `suffix`.
pub fn str_ends_with(text: &str, suffix: &str) -> (b: bool)
    ensures
        b == has_suffix(text@, suffix@),
{
    let t = chars_of(text);
    let s = chars_of(suffix);
    chars_end_with(&t, &s)
}

/// Whether two strings hold the same characters.
pub fn str_equal(a: &str, b: &str) -> (same: bool)
    ensures
        same == (a@ == b@),
{
    let x = chars_of(a);
    let y = chars_of(b);
    if x.len() != y.len() {
        return false;
    }
    let same = occurs_at_index(&x, &y, 0);
    proof {
        assert(x@.subrange(0, y@.len() as int) =~= x@);
    }
    same
}

/// Whether the file name `name` has the extension `ext`.
pub fn str_has_extension(name: &str, ext: &str) -> (b: bool)
    ensures
        b == has_extension(name@, ext@),
{
    let n = chars_of(name);
    let e = chars_of(ext);
    let mut dotted: Vec<char> = Vec::new();
    dotted.push('.');
    let mut k: usize = 0;
    while k < e.len()
        invariant
            k <= e.len(),
            e@ == ext@,
            dotted@ == seq!['.'] + e@.take(k as int),
            forall|j: int| 0 <= j < k ==> e@[j] != '.',
        decreases e.len() - k,
    {
        if e[k] == '.' {
            assert(e@.contains('.'));
            return false;
        }
        dotted.push(e[k]);
        assert(e@.take(k as int + 1) == e@.take(k as int).push(e@[k as int]));
        k += 1;
    }
    assert(e@.take(k as int) == e@);
    if n.len() <= dotted.len() {
        return false;
    }
    chars_end_with(&n, &dotted)
}

/// The path of `name` below the directory `base`.
pub fn join_path(base: &str, name: &str) -> (path: String)
    ensures
        path@ == joined(base@, name@),
{
    let name_len: usize = name.unicode_len();
    if name_len > 0 && name.get_char(0) == '/' {
        return name.to_owned();
    }
    let base_len: usize = base.unicode_len();
    let mut path = base.to_owned();
    if base_len > 0 && base.get_char(base_len - 1) != '/' {
        path.append("/");
        proof {
            reveal_strlit("/");
            assert("/"@ == seq!['/']);
        }
    }
    path.append(name);
    path
}

} // verus!
