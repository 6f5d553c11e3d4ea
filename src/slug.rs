//! Friendly slugs for topics and categories, and the validity rules of the
//! names they are made from.

use vstd::prelude::*;
use vstd::string::*;
use crate::text::{lower_of, lowercase, trim_text, trimmed, is_unset, is_unset_marker, same_text};

verus! {

/// What `deunicode::deunicode_with_tofu(s, "-")` makes of a string.
pub uninterp spec fn transliteration_of(s: Seq<char>) -> Seq<char>;

/// Relies on deunicode's `deunicode_with_tofu` with "-" for characters that
/// have no ASCII spelling; its fast path returns text whose characters are
/// all below U+007F unchanged.
#[verifier::external_body]
fn transliterate(s: &str) -> (r: String)
    ensures
        r@ == transliteration_of(s@),
        (forall|i: int| 0 <= i < s@.len() ==> (s@[i] as u32) < 0x7f) ==> r@ == s@,
{
    deunicode::deunicode_with_tofu(s, "-")
}

/// The text that stands for one character once punctuation is mapped: the
/// separators ` [ ] " / ? & .` become `-`, and `#` becomes `++++`.
pub open spec fn punct_piece(c: char) -> Seq<char> {
    if c == ' ' || c == '[' || c == ']' || c == '"' || c == '/' || c == '?' || c == '&' || c == '.' {
        seq!['-']
    } else if c == '#' {
        seq!['+', '+', '+', '+']
    } else {
        seq![c]
    }
}

pub open spec fn punct_mapped(s: Seq<char>) -> Seq<char>
    decreases s.len(),
{
    if s.len() == 0 {
        Seq::empty()
    } else {
        punct_mapped(s.drop_last()) + punct_piece(s.last())
    }
}

/// `str::replace`: every match of `p`, scanning left to right without
/// overlaps, replaced by `rep`.
pub open spec fn replaced(s: Seq<char>, p: Seq<char>, rep: Seq<char>) -> Seq<char>
    decreases s.len(),
{
    if p.len() == 0 || s.len() < p.len() {
        s
    } else if s.take(p.len() as int) == p {
        rep + replaced(s.skip(p.len() as int), p, rep)
    } else {
        seq![s[0]] + replaced(s.skip(1), p, rep)
    }
}

/// The slug of a name.
pub open spec fn slug_of(s: Seq<char>) -> Seq<char> {
    replaced(
        replaced(punct_mapped(lower_of(transliteration_of(trimmed(s)))), seq!['-', '-', '-'], seq!['-']),
        seq!['-', '-'],
        seq!['-'],
    )
}

/// Maps separators to `-` and `#` to `++++`.
pub fn map_punctuation(s: &str) -> (r: String)
    ensures
        r@ == punct_mapped(s@),
{
    let n = s.unicode_len();
    let mut r = String::new();
    let mut i: usize = 0;
    while i < n
        invariant
            n == s@.len(),
            i <= n,
            r@ == punct_mapped(s@.take(i as int)),
        decreases n - i,
    {
        let c = s.get_char(i);
        proof {
            assert(s@.take(i as int + 1).drop_last() =~= s@.take(i as int));
            assert(s@.take(i as int + 1).last() == c);
            reveal_strlit("-");
            reveal_strlit("++++");
            assert("-"@ =~= seq!['-']);
            assert("++++"@ =~= seq!['+', '+', '+', '+']);
        }
        if c == ' ' || c == '[' || c == ']' || c == '"' || c == '/' || c == '?' || c == '&' || c
            == '.' {
            r.append("-");
        } else if c == '#' {
            r.append("++++");
        } else {
            let piece = s.substring_char(i, i + 1);
            assert(piece@ =~= seq![c]);
            r.append(piece);
        }
        i = i + 1;
    }
    proof {
        assert(s@.take(n as int) =~= s@);
    }
    r
}

/// Whether `p` occurs in `s` at character `i`.
fn occurs_at(s: &str, n: usize, p: &str, m: usize, i: usize) -> (r: bool)
    requires
        n == s@.len(),
        m == p@.len(),
        i <= n,
    ensures
        r == (i + m <= n && s@.subrange(i as int, i + m) == p@),
{
    if m > n - i {
        return false;
    }
    let mut k: usize = 0;
    while k < m
        invariant
            i + m <= n,
            n == s@.len(),
            m == p@.len(),
            k <= m,
            s@.subrange(i as int, i + k) == p@.take(k as int),
        decreases m - k,
    {
        if s.get_char(i + k) != p.get_char(k) {
            assert(s@.subrange(i as int, i + m)[k as int] != p@[k as int]);
            return false;
        }
        assert(s@.subrange(i as int, i + k + 1) =~= s@.subrange(i as int, i + k).push(s@[i + k]));
        assert(p@.take(k + 1) =~= p@.take(k as int).push(p@[k as int]));
        k = k + 1;
    }
    assert(p@.take(m as int) =~= p@);
    true
}

/// Replaces every match of `p` in `s`, left to right, by `rep`.
pub fn replace_text(s: &str, p: &str, rep: &str) -> (r: String)
    requires
        p@.len() > 0,
    ensures
        r@ == replaced(s@, p@, rep@),
{
    let n = s.unicode_len();
    let m = p.unicode_len();
    let mut r = String::new();
    let mut i: usize = 0;
    proof {
        assert(s@.skip(0) =~= s@);
        assert(r@ + s@ =~= s@);
    }
    while i < n
        invariant
            n == s@.len(),
            m == p@.len(),
            m > 0,
            i <= n,
            r@ + replaced(s@.skip(i as int), p@, rep@) == replaced(s@, p@, rep@),
        decreases n - i,
    {
        let ghost rest = s@.skip(i as int);
        if occurs_at(s, n, p, m, i) {
            assert(rest.take(m as int) =~= s@.subrange(i as int, i + m));
            assert(rest.skip(m as int) =~= s@.skip(i + m));
            r.append(rep);
            i = i + m;
        } else {
            let piece = s.substring_char(i, i + 1);
            proof {
                if rest.len() >= m {
                    assert(rest.take(m as int) =~= s@.subrange(i as int, i + m));
                    assert(rest.skip(1) =~= s@.skip(i + 1));
                    assert(seq![rest[0]] =~= piece@);
                } else {
                    assert(replaced(rest, p@, rep@) == rest);
                    assert(rest =~= piece@ + s@.skip(i + 1));
                    assert(replaced(s@.skip(i + 1), p@, rep@) == s@.skip(i + 1)) by {
                        assert(s@.skip(i + 1).len() < m);
                    }
                }
            }
            r.append(piece);
            i = i + 1;
        }
    }
    proof {
        assert(s@.skip(n as int) =~= Seq::<char>::empty());
        assert(r@ + Seq::<char>::empty() =~= r@);
    }
    r
}

/// The slug of a name: trimmed, transliterated to ASCII, lower-cased,
/// separators turned into dashes and `#` into `++++`, then runs of three and
/// of two dashes shortened.
pub fn slugify(s: &str) -> (r: String)
    ensures
        r@ == slug_of(s@),
{
    proof {
        reveal_strlit("---");
        reveal_strlit("--");
        reveal_strlit("-");
        assert("---"@ =~= seq!['-', '-', '-']);
        assert("--"@ =~= seq!['-', '-']);
        assert("-"@ =~= seq!['-']);
    }
    let t = transliterate(trim_text(s));
    let lower = lowercase(t.as_str());
    let mapped = map_punctuation(lower.as_str());
    let once = replace_text(mapped.as_str(), "---", "-");
    replace_text(once.as_str(), "--", "-")
}

pub open spec fn digit_char(d: nat) -> char {
    (('0' as u32) + d) as char
}

/// The decimal digits of a natural number, without leading zeros.
pub open spec fn digits_of(n: nat) -> Seq<char>
    decreases n,
{
    if n < 10 {
        seq![digit_char(n)]
    } else {
        digits_of(n / 10) + seq![digit_char(n % 10)]
    }
}

/// An integer written in decimal, with a leading `-` when negative.
pub open spec fn decimal_of(n: int) -> Seq<char> {
    if n < 0 {
        seq!['-'] + digits_of((-n) as nat)
    } else {
        digits_of(n as nat)
    }
}

/// Relies on `i64`'s `Display`: an optional minus sign, then the decimal
/// digits without leading zeros.
#[verifier::external_body]
fn decimal_text(n: i64) -> (r: String)
    ensures
        r@ == decimal_of(n as int),
{
    n.to_string()
}

/// The stored form of a topic name: trimmed and lower-cased. `None` when
/// that is empty or a lone dash.
pub fn topic_name(raw: &str) -> (r: Option<String>)
    ensures
        r is None <==> is_unset_marker(lower_of(trimmed(raw@))),
        r is Some ==> r->Some_0@ == lower_of(trimmed(raw@)),
{
    let name = lowercase(trim_text(raw));
    if is_unset(name.as_str()) {
        None
    } else {
        Some(name)
    }
}

/// The slug of a new topic: the slug of its name, a dash, and the creation
/// time in milliseconds, which keeps slugs of equal names apart.
pub fn topic_slug(name: &str, created_millis: i64) -> (r: String)
    ensures
        r@ == slug_of(name@) + seq!['-'] + decimal_of(created_millis as int),
{
    proof {
        reveal_strlit("-");
        assert("-"@ =~= seq!['-']);
    }
    let mut slug = slugify(name);
    slug.append("-");
    let stamp = decimal_text(created_millis);
    slug.append(stamp.as_str());
    slug
}

/// Whether a category may be created with these names: neither may be empty
/// or a lone dash.
pub fn category_names_valid(name_zh: &str, name_en: &str) -> (r: bool)
    ensures
        r == (!is_unset_marker(name_zh@) && !is_unset_marker(name_en@)),
{
    !is_unset(name_zh) && !is_unset(name_en)
}

/// The slug of a new category: the slugs of both names (one of them when
/// they agree) and the creation time in milliseconds, joined by dashes.
pub fn category_slug(name_zh: &str, name_en: &str, created_millis: i64) -> (r: String)
    ensures
        slug_of(name_zh@) == slug_of(name_en@) ==> r@ == slug_of(name_zh@) + seq!['-'] + decimal_of(
            created_millis as int,
        ),
        slug_of(name_zh@) != slug_of(name_en@) ==> r@ == slug_of(name_zh@) + seq!['-'] + slug_of(
            name_en@,
        ) + seq!['-'] + decimal_of(created_millis as int),
{
    proof {
        reveal_strlit("-");
        assert("-"@ =~= seq!['-']);
    }
    let mut slug = slugify(name_zh);
    let slug_en = slugify(name_en);
    if !same_text(slug.as_str(), slug_en.as_str()) {
        slug.append("-");
        slug.append(slug_en.as_str());
    }
    slug.append("-");
    let stamp = decimal_text(created_millis);
    slug.append(stamp.as_str());
    slug
}

/// The pieces of a text between commas, as `str::split(',')` gives them:
/// one more piece than there are commas, empty pieces kept.
pub open spec fn comma_pieces(s: Seq<char>) -> Seq<Seq<char>>
    decreases s.len(),
{
    if s.len() == 0 {
        seq![Seq::empty()]
    } else {
        let prev = comma_pieces(s.drop_last());
        if s.last() == ',' {
            prev.push(Seq::empty())
        } else {
            prev.update(prev.len() - 1, prev.last().push(s.last()))
        }
    }
}

proof fn lemma_comma_pieces_nonempty(s: Seq<char>)
    ensures
        comma_pieces(s).len() >= 1,
    decreases s.len(),
{
    if s.len() > 0 {
        lemma_comma_pieces_nonempty(s.drop_last());
    }
}

/// The topic names of a comma-separated list, each trimmed.
pub fn split_topic_names(list: &str) -> (r: Vec<String>)
    ensures
        r@.len() == comma_pieces(list@).len(),
        forall|i: int| 0 <= i < r@.len() ==> #[trigger] r@[i]@ == trimmed(comma_pieces(list@)[i]),
{
    let n = list.unicode_len();
    let mut done: Vec<String> = Vec::new();
    let mut piece = String::new();
    let mut i: usize = 0;
    while i < n
        invariant
            n == list@.len(),
            i <= n,
            comma_pieces(list@.take(i as int)).len() == done@.len() + 1,
            forall|k: int|
                0 <= k < done@.len() ==> #[trigger] done@[k]@ == trimmed(
                    comma_pieces(list@.take(i as int))[k],
                ),
            piece@ == comma_pieces(list@.take(i as int)).last(),
        decreases n - i,
    {
        let c = list.get_char(i);
        let ghost prev = comma_pieces(list@.take(i as int));
        proof {
            assert(list@.take(i as int + 1).drop_last() =~= list@.take(i as int));
            assert(list@.take(i as int + 1).last() == c);
            lemma_comma_pieces_nonempty(list@.take(i as int));
        }
        if c == ',' {
            let t = trim_text(piece.as_str()).to_owned();
            done.push(t);
            piece = String::new();
            proof {
                let now = comma_pieces(list@.take(i as int + 1));
                assert(now == prev.push(Seq::empty()));
                assert forall|k: int| 0 <= k < done@.len() implies #[trigger] done@[k]@ == trimmed(
                    now[k],
                ) by {
                    assert(now[k] == prev[k]);
                }
            }
        } else {
            let one = list.substring_char(i, i + 1);
            assert(one@ =~= seq![c]);
            piece.append(one);
            proof {
                let now = comma_pieces(list@.take(i as int + 1));
                assert(now == prev.update(prev.len() - 1, prev.last().push(c)));
                assert forall|k: int| 0 <= k < done@.len() implies #[trigger] done@[k]@ == trimmed(
                    now[k],
                ) by {
                    assert(now[k] == prev[k]);
                }
            }
        }
        i = i + 1;
    }
    let t = trim_text(piece.as_str()).to_owned();
    done.push(t);
    proof {
        assert(list@.take(n as int) =~= list@);
    }
    done
}

} // verus!
