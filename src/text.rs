//! Small string operations over character sequences.

use vstd::prelude::*;
use vstd::string::*;

verus! {

/// Unicode's White_Space property, which `char::is_whitespace` follows.
pub open spec fn is_white_space(c: char) -> bool {
    let u = c as u32;
    (0x9 <= u && u <= 0xd) || u == 0x20 || u == 0x85 || u == 0xa0 || u == 0x1680 || (0x2000 <= u
        && u <= 0x200a) || u == 0x2028 || u == 0x2029 || u == 0x202f || u == 0x205f || u == 0x3000
}

pub open spec fn trim_start(s: Seq<char>) -> Seq<char>
    decreases s.len(),
{
    if s.len() > 0 && is_white_space(s[0]) {
        trim_start(s.drop_first())
    } else {
        s
    }
}

pub open spec fn trim_end(s: Seq<char>) -> Seq<char>
    decreases s.len(),
{
    if s.len() > 0 && is_white_space(s.last()) {
        trim_end(s.drop_last())
    } else {
        s
    }
}

/// `s` without leading and trailing white space.
pub open spec fn trimmed(s: Seq<char>) -> Seq<char> {
    trim_end(trim_start(s))
}

/// What `str::to_lowercase` makes of a string.
pub uninterp spec fn lower_of(s: Seq<char>) -> Seq<char>;

/// The two spellings of "not set" that request fields use: empty, or a lone dash.
pub open spec fn is_unset_marker(s: Seq<char>) -> bool {
    s.len() == 0 || s == seq!['-']
}

/// Relies on `str::trim`: removes leading and trailing White_Space characters.
#[verifier::external_body]
pub(crate) fn trim_text(s: &str) -> (r: &str)
    ensures
        r@ == trimmed(s@),
{
    s.trim()
}

/// Relies on `str::to_lowercase`: the result depends on the characters alone.
#[verifier::external_body]
pub(crate) fn lowercase(s: &str) -> (r: String)
    ensures
        r@ == lower_of(s@),
{
    s.to_lowercase()
}

/// Whether two strings hold the same characters.
pub fn same_text(a: &str, b: &str) -> (r: bool)
    ensures
        r == (a@ == b@),
{
    let n = a.unicode_len();
    if n != b.unicode_len() {
        return false;
    }
    let mut i: usize = 0;
    while i < n
        invariant
            n == a@.len(),
            n == b@.len(),
            i <= n,
            a@.take(i as int) == b@.take(i as int),
        decreases n - i,
    {
        if a.get_char(i) != b.get_char(i) {
            assert(a@[i as int] != b@[i as int]);
            return false;
        }
        assert(a@.take(i as int + 1) =~= a@.take(i as int).push(a@[i as int]));
        assert(b@.take(i as int + 1) =~= b@.take(i as int).push(b@[i as int]));
        i = i + 1;
    }
    assert(a@ =~= a@.take(n as int));
    assert(b@ =~= b@.take(n as int));
    true
}

/// Whether a request field holds one of the "not set" spellings, `""` or `"-"`.
pub fn is_unset(s: &str) -> (r: bool)
    ensures
        r == is_unset_marker(s@),
{
    let n = s.unicode_len();
    if n == 0 {
        true
    } else if n == 1 {
        let c = s.get_char(0);
        assert(n == 1 ==> (s@ == seq!['-'] <==> s@[0] == '-')) by {
            if n == 1 && s@[0] == '-' {
                assert(s@ =~= seq!['-']);
            }
        }
        c == '-'
    } else {
        false
    }
}

/// Whether `s`, trimmed, holds one of the "not set" spellings.
pub fn is_blank_or_dash(s: &str) -> (r: bool)
    ensures
        r == is_unset_marker(trimmed(s@)),
{
    is_unset(trim_text(s))
}

} // verus!
