//! Document identifiers: twelve bytes, ordered as a big-endian number.

use vstd::prelude::*;

verus! {

/// The number a byte string spells, most significant byte first.
pub open spec fn be_value(b: Seq<u8>) -> nat
    decreases b.len(),
{
    if b.len() == 0 {
        0
    } else {
        be_value(b.drop_last()) * 256 + b.last() as nat
    }
}

pub open spec fn is_hex_digit(c: char) -> bool {
    ('0' as u32 <= c as u32 && c as u32 <= '9' as u32)
        || ('a' as u32 <= c as u32 && c as u32 <= 'f' as u32)
        || ('A' as u32 <= c as u32 && c as u32 <= 'F' as u32)
}

pub open spec fn hex_digit_value(c: char) -> nat {
    if '0' as u32 <= c as u32 && c as u32 <= '9' as u32 {
        (c as u32 - '0' as u32) as nat
    } else if 'a' as u32 <= c as u32 && c as u32 <= 'f' as u32 {
        (c as u32 - 'a' as u32 + 10) as nat
    } else {
        (c as u32 - 'A' as u32 + 10) as nat
    }
}

/// The text form of an identifier: exactly 24 hexadecimal digits, either case.
pub open spec fn is_oid_text(s: Seq<char>) -> bool {
    s.len() == 24 && forall|i: int| 0 <= i < s.len() ==> is_hex_digit(#[trigger] s[i])
}

/// The bytes that a string of hexadecimal digits encodes, two digits per byte.
pub open spec fn hex_bytes(s: Seq<char>) -> Seq<u8> {
    Seq::new(
        s.len() / 2,
        |i: int| (hex_digit_value(s[2 * i]) * 16 + hex_digit_value(s[2 * i + 1])) as u8,
    )
}

/// A document identifier; `value` is its twelve bytes read as a big-endian number,
/// so comparing values compares identifiers in the store's order.
#[derive(Clone, Copy, Debug, PartialEq, Eq, Hash, Structural)]
pub struct Oid {
    pub value: u128,
}

impl Oid {
    pub open spec fn wf(&self) -> bool {
        self.value < 0x1_0000_0000_0000_0000_0000_0000
    }

    /// The identifier whose bytes are `b`.
    pub fn from_bytes(b: [u8; 12]) -> (r: Oid)
        ensures
            r.value == be_value(b@),
            r.wf(),
    {
        let mut v: u128 = 0;
        let mut i: usize = 0;
        while i < 12
            invariant
                i <= 12,
                b@.len() == 12,
                v == be_value(b@.take(i as int)),
                v < pow256(i as nat),
            decreases 12 - i,
        {
            proof {
                assert(b@.take(i as int + 1).drop_last() =~= b@.take(i as int));
                lemma_pow256_step(i as nat);
                lemma_pow256_mono(i as nat + 1, 12);
                lemma_pow256_12();
                assert(v * 256 + b[i as int] < pow256(i as nat) * 256) by (nonlinear_arith)
                    requires v < pow256(i as nat), b[i as int] < 256;
            }
            v = v * 256 + b[i] as u128;
            i = i + 1;
        }
        proof {
            assert(b@.take(12) =~= b@);
            lemma_pow256_12();
        }
        Oid { value: v }
    }
}

/// The identifier that a 24-digit hexadecimal text spells.
pub open spec fn oid_of_text(s: Seq<char>) -> Oid {
    Oid { value: be_value(hex_bytes(s)) as u128 }
}

/// Relies on bson's `ObjectId::parse_str`, which hex-decodes the text (either
/// case) and accepts it only when that gives exactly twelve bytes.
#[verifier::external_body]
fn parse_object_id_bytes(s: &str) -> (r: Option<[u8; 12]>)
    ensures
        r.is_some() <==> is_oid_text(s@),
        r.is_some() ==> r.unwrap()@ == hex_bytes(s@),
{
    match mongodb::bson::oid::ObjectId::parse_str(s) {
        Ok(id) => Some(id.bytes()),
        Err(_) => None,
    }
}

impl Oid {
    /// Parses the 24-digit hexadecimal form of an identifier.
    pub fn parse_str(s: &str) -> (r: Option<Oid>)
        ensures
            r.is_some() <==> is_oid_text(s@),
            r.is_some() ==> r.unwrap() == oid_of_text(s@),
    {
        match parse_object_id_bytes(s) {
            Some(b) => Some(Oid::from_bytes(b)),
            None => None,
        }
    }
}

pub open spec fn pow256(n: nat) -> nat
    decreases n,
{
    if n == 0 { 1 } else { pow256((n - 1) as nat) * 256 }
}

proof fn lemma_pow256_step(n: nat)
    ensures
        pow256(n + 1) == pow256(n) * 256,
        pow256(n) >= 1,
    decreases n,
{
    if n > 0 {
        lemma_pow256_step((n - 1) as nat);
    }
}

proof fn lemma_pow256_12()
    ensures pow256(12) == 0x1_0000_0000_0000_0000_0000_0000,
{
    reveal_with_fuel(pow256, 13);
}

proof fn lemma_pow256_mono(a: nat, b: nat)
    requires
        a <= b,
    ensures
        pow256(a) <= pow256(b),
    decreases b - a,
{
    if a < b {
        lemma_pow256_mono(a, (b - 1) as nat);
        lemma_pow256_step((b - 1) as nat);
    }
}

} // verus!
