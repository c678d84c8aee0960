//! Small verified string helpers shared by the rest of the library, together
//! with the trusted bridges to the parts of `std`'s string API that vstd
//! leaves unspecified.

use vstd::prelude::*;

verus! {

/// Relies on `String::push`: appends exactly one character to the string.
#[verifier::external_body]
pub(crate) fn push_char(s: &mut String, c: char)
    ensures
        final(s)@ == old(s)@.push(c),
{
    s.push(c);
}

/// Relies on `str`'s `PartialEq`: string slices compare equal exactly when
/// their characters do.
#[verifier::external_body]
pub(crate) fn str_eq(a: &str, b: &str) -> (r: bool)
    ensures
        r == (a@ == b@),
{
    a == b
}

/// What `str::trim` returns for a given character sequence.
pub uninterp spec fn trim_of(s: Seq<char>) -> Seq<char>;

/// Relies on `str::trim`: the result depends on the characters alone, and an
/// empty string trims to itself.
#[verifier::external_body]
pub(crate) fn trim_str(s: &str) -> (r: String)
    ensures
        r@ == trim_of(s@),
        s@.len() == 0 ==> r@.len() == 0,
{
    s.trim().to_string()
}

/// The views of a list of strings.
pub open spec fn strs(lines: Seq<String>) -> Seq<Seq<char>> {
    lines.map_values(|s: String| s@)
}

/// `needle` occurs contiguously somewhere in `hay`.
pub open spec fn contains_seq(hay: Seq<char>, needle: Seq<char>) -> bool {
    exists|k: int|
        0 <= k <= hay.len() - needle.len() && #[trigger] hay.subrange(k, k + needle.len())
            == needle
}

/// Whether `needle` occurs in `hay` starting at position `k`.
fn match_at(hay: &str, needle: &str, k: usize) -> (r: bool)
    requires
        k + needle@.len() <= hay@.len(),
    ensures
        r == (hay@.subrange(k as int, k + needle@.len()) == needle@),
{
    let n = hay.unicode_len();
    let m = needle.unicode_len();
    let mut j: usize = 0;
    while j < m
        invariant
            n == hay@.len(),
            m == needle@.len(),
            j <= m,
            k + m <= n,
            forall|t: int| 0 <= t < j ==> hay@[k + t] == needle@[t],
        decreases m - j,
    {
        if hay.get_char(k + j) != needle.get_char(j) {
            proof {
                assert(hay@.subrange(k as int, k + needle@.len())[j as int] == hay@[k + j]);
            }
            return false;
        }
        j = j + 1;
    }
    proof {
        assert(hay@.subrange(k as int, k + needle@.len()) =~= needle@);
    }
    true
}

/// Whether `needle` occurs anywhere in `hay`.
pub fn str_contains(hay: &str, needle: &str) -> (r: bool)
    ensures
        r == contains_seq(hay@, needle@),
{
    let n = hay.unicode_len();
    let m = needle.unicode_len();
    if m > n {
        return false;
    }
    if m == 0 {
        proof {
            assert(hay@.subrange(0, 0 + needle@.len() as int) =~= needle@);
        }
        return true;
    }
    let mut k: usize = 0;
    while k <= n - m
        invariant
            n == hay@.len(),
            m == needle@.len(),
            0 < m <= n,
            k <= n - m + 1,
            forall|k2: int|
                0 <= k2 < k ==> #[trigger] hay@.subrange(k2, k2 + needle@.len()) != needle@,
        decreases n - k,
    {
        if match_at(hay, needle, k) {
            return true;
        }
        k = k + 1;
    }
    false
}

/// `path` with a leading `~/` replaced by the home directory and a path
/// separator.
pub open spec fn spec_expanded(home: Seq<char>, path: Seq<char>) -> Seq<char> {
    if path.len() >= 2 && path.subrange(0, 2) == "~/"@ {
        home + "/"@ + path.skip(2)
    } else {
        path
    }
}

/// Expand a leading `~/` of a candidate path against the home directory.
pub fn expand_tilde(home: &str, path: &str) -> (r: String)
    ensures
        r@ == spec_expanded(home@, path@),
{
    let n = path.unicode_len();
    if n >= 2 {
        let tilde = path.get_char(0) == '~' && path.get_char(1) == '/';
        proof {
            reveal_strlit("~/");
            assert("~/"@.len() == 2);
            assert(path@.subrange(0, 2)[0] == path@[0]);
            assert(path@.subrange(0, 2)[1] == path@[1]);
            if tilde {
                assert(path@.subrange(0, 2) =~= "~/"@);
            }
        }
        if tilde {
            let rest = path.substring_char(2, n);
            let mut r = home.to_owned();
            r.append("/");
            r.append(rest);
            proof {
                assert(path@.skip(2) =~= path@.subrange(2, n as int));
            }
            return r;
        }
    }
    path.to_owned()
}

/// `s` with every `from` character replaced by `to`.
pub open spec fn replaced(s: Seq<char>, from: char, to: char) -> Seq<char> {
    s.map_values(|c: char| if c == from { to } else { c })
}

/// Replace every occurrence of the character `from` by `to`.
pub fn replace_char(s: &str, from: char, to: char) -> (r: String)
    ensures
        r@ == replaced(s@, from, to),
{
    let n: usize = s.unicode_len();
    let mut out = String::new();
    let mut i: usize = 0;
    while i < n
        invariant
            n == s@.len(),
            i <= n,
            out@ == replaced(s@.take(i as int), from, to),
        decreases n - i,
    {
        let c = s.get_char(i);
        let d = if c == from { to } else { c };
        push_char(&mut out, d);
        proof {
            assert(s@.take(i + 1 as int).drop_last() =~= s@.take(i as int));
            assert(replaced(s@.take(i + 1 as int), from, to) =~= replaced(
                s@.take(i as int),
                from,
                to,
            ).push(d));
        }
        i = i + 1;
    }
    proof {
        assert(s@.take(n as int) =~= s@);
    }
    out
}

} // verus!
