//! Character-level string helpers: the hyphen/underscore substitution that
//! lets hyphenated resource names pass through the SQL grammar, and a few
//! verified primitives (`str` equality, character append) that the rest of
//! the crate builds strings with.

use vstd::prelude::*;
use vstd::string::StrSliceExecFns;

verus! {

/// The forward substitution applied to raw query text before it is handed
/// to the SQL grammar: every `-` becomes `_`.
pub open spec fn escape_spec(s: Seq<char>) -> Seq<char> {
    s.map_values(|c: char| if c == '-' { '_' } else { c })
}

/// The inverse substitution applied to every string the plan hands out:
/// every `_` becomes `-`.
pub open spec fn unescape_spec(s: Seq<char>) -> Seq<char> {
    s.map_values(|c: char| if c == '_' { '-' } else { c })
}

/// Relies on String::push: appends exactly the given character.
#[verifier::external_body]
pub(crate) fn push_char(s: &mut String, c: char)
    ensures
        final(s)@ == old(s)@.push(c),
{
    s.push(c);
}

/// Replaces every `-` with `_`, so the text satisfies the SQL grammar's
/// identifier rules.
pub fn escape(s: &str) -> (r: String)
    ensures
        r@ == escape_spec(s@),
{
    let n = s.unicode_len();
    let mut out = String::new();
    let mut i: usize = 0;
    while i < n
        invariant
            i <= n,
            n == s@.len(),
            out@ == escape_spec(s@.take(i as int)),
        decreases n - i,
    {
        let c = s.get_char(i);
        let e = if c == '-' {
            '_'
        } else {
            c
        };
        push_char(&mut out, e);
        proof {
            assert(out@ =~= escape_spec(s@.take(i + 1)));
        }
        i = i + 1;
    }
    proof {
        assert(s@.take(n as int) =~= s@);
    }
    out
}

/// Replaces every `_` with `-`, undoing [`escape`] on strings read back out
/// of the parsed query.
pub fn unescape(s: &str) -> (r: String)
    ensures
        r@ == unescape_spec(s@),
{
    let n = s.unicode_len();
    let mut out = String::new();
    let mut i: usize = 0;
    while i < n
        invariant
            i <= n,
            n == s@.len(),
            out@ == unescape_spec(s@.take(i as int)),
        decreases n - i,
    {
        let c = s.get_char(i);
        let e = if c == '_' {
            '-'
        } else {
            c
        };
        push_char(&mut out, e);
        proof {
            assert(out@ =~= unescape_spec(s@.take(i + 1)));
        }
        i = i + 1;
    }
    proof {
        assert(s@.take(n as int) =~= s@);
    }
    out
}

/// Law: the hyphen/underscore round trip is lossless for names made only
/// of lower-case letters, digits and hyphens: escaping such a string and
/// reading it back yields the original unchanged. (A literal underscore in
/// the input would come back as a hyphen; such inputs are outside this
/// law.)
pub proof fn lemma_escape_round_trip(s: Seq<char>)
    requires
        forall|i: int|
            0 <= i < s.len() ==> ('a' <= s[i] <= 'z' || '0' <= s[i] <= '9' || s[i] == '-'),
    ensures
        unescape_spec(escape_spec(s)) == s,
{
    assert(unescape_spec(escape_spec(s)) =~= s);
}

/// `c` with an ASCII upper-case letter folded to lower case.
pub open spec fn lower_char_spec(c: char) -> char {
    if 'A' <= c && c <= 'Z' {
        ((c as u32) + 32) as char
    } else {
        c
    }
}

/// Equality of two strings up to ASCII case.
pub open spec fn eq_ignore_case_spec(a: Seq<char>, b: Seq<char>) -> bool {
    a.map_values(|c: char| lower_char_spec(c)) == b.map_values(|c: char| lower_char_spec(c))
}

/// Character-wise comparison of two string slices up to ASCII case.
pub fn eq_ignore_ascii_case(a: &str, b: &str) -> (r: bool)
    ensures
        r == eq_ignore_case_spec(a@, b@),
{
    let ghost la = a@.map_values(|c: char| lower_char_spec(c));
    let ghost lb = b@.map_values(|c: char| lower_char_spec(c));
    let na = a.unicode_len();
    let nb = b.unicode_len();
    if na != nb {
        proof {
            assert(la.len() != lb.len());
        }
        return false;
    }
    let mut i: usize = 0;
    while i < na
        invariant
            i <= na,
            na == a@.len(),
            nb == b@.len(),
            na == nb,
            la == a@.map_values(|c: char| lower_char_spec(c)),
            lb == b@.map_values(|c: char| lower_char_spec(c)),
            forall|j: int| 0 <= j < i ==> la[j] == lb[j],
        decreases na - i,
    {
        let ca = a.get_char(i) as u32;
        let cb = b.get_char(i) as u32;
        let fa: u32 = if 65 <= ca && ca <= 90 {
            ca + 32
        } else {
            ca
        };
        let fb: u32 = if 65 <= cb && cb <= 90 {
            cb + 32
        } else {
            cb
        };
        proof {
            assert(fa == lower_char_spec(a@[i as int]) as u32);
            assert(fb == lower_char_spec(b@[i as int]) as u32);
        }
        if fa != fb {
            proof {
                assert(la[i as int] != lb[i as int]);
            }
            return false;
        }
        i = i + 1;
    }
    proof {
        assert(la =~= lb);
    }
    true
}

/// An element-wise copy of a vector of strings.
pub fn clone_strings(v: &Vec<String>) -> (r: Vec<String>)
    ensures
        r.deep_view() == v.deep_view(),
{
    let mut r: Vec<String> = Vec::new();
    let mut i: usize = 0;
    while i < v.len()
        invariant
            i <= v.len(),
            r@.len() == i,
            forall|j: int| 0 <= j < i ==> r@[j]@ == v@[j]@,
        decreases v.len() - i,
    {
        r.push(v[i].clone());
        i = i + 1;
    }
    proof {
        assert(r.deep_view() =~= v.deep_view());
    }
    r
}

/// Character-wise equality of two string slices.
pub fn str_eq(a: &str, b: &str) -> (r: bool)
    ensures
        r == (a@ == b@),
{
    let na = a.unicode_len();
    let nb = b.unicode_len();
    if na != nb {
        return false;
    }
    let mut i: usize = 0;
    while i < na
        invariant
            i <= na,
            na == a@.len(),
            nb == b@.len(),
            na == nb,
            forall|j: int| 0 <= j < i ==> a@[j] == b@[j],
        decreases na - i,
    {
        if a.get_char(i) != b.get_char(i) {
            return false;
        }
        i = i + 1;
    }
    proof {
        assert(a@ =~= b@);
    }
    true
}

} // verus!
