//! Call identifiers.

use vstd::prelude::*;

verus! {

/// The lowercase hexadecimal digit of a value below 16.
pub open spec fn hex_digit(n: u128) -> char {
    seq!['0', '1', '2', '3', '4', '5', '6', '7', '8', '9', 'a', 'b', 'c', 'd', 'e', 'f'][n as int]
}

/// The `k`-th of the 32 hexadecimal digits of `v`, most significant first.
pub open spec fn nibble(v: u128, k: int) -> u128 {
    (v >> ((124 - 4 * k) as u128)) & 0xfu128
}

/// Which digit stands at position `i` of the hyphenated text: hyphens
/// follow the 8th, 12th, 16th and 20th digits.
pub open spec fn digit_at(i: int) -> int {
    if i > 23 {
        i - 4
    } else if i > 18 {
        i - 3
    } else if i > 13 {
        i - 2
    } else if i > 8 {
        i - 1
    } else {
        i
    }
}

/// Text of a 128-bit value in the hyphenated lowercase UUID form: its 32
/// hexadecimal digits, most significant first, with a hyphen after the 8th,
/// 12th, 16th and 20th.
pub open spec fn uuid_text(v: u128) -> Seq<char> {
    Seq::new(
        36,
        |i: int|
            if i == 8 || i == 13 || i == 18 || i == 23 {
                '-'
            } else {
                hex_digit(nibble(v, digit_at(i)))
            },
    )
}

/// Relies on uuid::Uuid::new_v4: a value drawn from the system's random
/// source; nothing is known of which.
#[verifier::external_body]
fn random_u128() -> (r: u128) {
    uuid::Uuid::new_v4().as_u128()
}

/// Relies on uuid::Uuid::from_u128 and the hyphenated formatter: the value's
/// big-endian bytes as lowercase hexadecimal digits, hyphenated 8-4-4-4-12.
#[verifier::external_body]
fn hyphenated(v: u128) -> (r: String)
    ensures
        r@ == uuid_text(v),
        r@.len() == 36,
{
    uuid::Uuid::from_u128(v).hyphenated().to_string()
}

/// The 128-bit value a text names as a UUID, if it names one.
pub uninterp spec fn uuid_value(s: Seq<char>) -> Option<u128>;

/// Relies on uuid::Uuid::parse_str and Uuid::as_u128: the result depends on
/// the text alone, and the hyphenated text of a value parses back to that
/// value.
#[verifier::external_body]
fn parse_uuid(s: &str) -> (r: Option<u128>)
    ensures
        r == uuid_value(s@),
        forall|v: u128| s@ == uuid_text(v) ==> r == Some(v),
{
    match uuid::Uuid::parse_str(s) {
        Ok(u) => Some(u.as_u128()),
        Err(_) => None,
    }
}

/// 2^64: the weight of the high half of a call identifier.
pub const HIGH_HALF: u128 = 0x1_0000_0000_0000_0000;

/// Identifier of one call instance: a 128-bit value that is fixed when the
/// call is created and never reused.
#[derive(Debug, Clone, Copy, PartialEq, Eq, Structural, Hash)]
pub struct CallId {
    /// The identifier's bits.
    pub value: u128,
}

/// The identifier made of a high half `tag` and a low half `seq`.
pub open spec fn composed_id(tag: u64, seq: u64) -> CallId {
    CallId { value: (tag as int * HIGH_HALF as int + seq as int) as u128 }
}

/// Two identifiers with the same high half and different low halves differ.
pub proof fn lemma_composed_injective(tag: u64, s1: u64, s2: u64)
    ensures
        (composed_id(tag, s1) == composed_id(tag, s2)) <==> (s1 == s2),
{
    assert(0 <= tag as int * HIGH_HALF as int <= (u64::MAX as int) * HIGH_HALF as int)
        by (nonlinear_arith);
}

/// The high half of an identifier's value is the tag it was composed from,
/// and the low half the sequence number.
pub proof fn lemma_composed_parts(tag: u64, seq: u64)
    ensures
        composed_id(tag, seq).value as int / HIGH_HALF as int == tag as int,
        composed_id(tag, seq).value as int % HIGH_HALF as int == seq as int,
{
    assert(0 <= tag as int * HIGH_HALF as int <= (u64::MAX as int) * HIGH_HALF as int)
        by (nonlinear_arith);
    vstd::arithmetic::div_mod::lemma_fundamental_div_mod_converse(
        composed_id(tag, seq).value as int,
        HIGH_HALF as int,
        tag as int,
        seq as int,
    );
}

impl CallId {
    /// A fresh identifier drawn at random.
    pub fn new() -> (r: CallId) {
        CallId { value: random_u128() }
    }

    /// The identifier whose high half is `tag` and low half `seq`.
    pub fn from_parts(tag: u64, seq: u64) -> (r: CallId)
        ensures
            r == composed_id(tag, seq),
    {
        proof {
            assert(0 <= tag as int * HIGH_HALF as int <= (u64::MAX as int) * HIGH_HALF as int)
                by (nonlinear_arith);
        }
        CallId { value: (tag as u128) * HIGH_HALF + (seq as u128) }
    }

    /// A random value for the high half of the identifiers one registry
    /// issues.
    pub fn random_tag() -> (r: u64) {
        let v = random_u128();
        (v / HIGH_HALF) as u64
    }

    /// The identifier a UUID text names, if any; the text of an identifier
    /// gives that identifier back.
    pub fn parse(s: &str) -> (r: Option<CallId>)
        ensures
            r == (match uuid_value(s@) {
                Some(v) => Some(CallId { value: v }),
                None => None::<CallId>,
            }),
            forall|v: u128| s@ == uuid_text(v) ==> r == Some(CallId { value: v }),
    {
        match parse_uuid(s) {
            Some(v) => Some(CallId { value: v }),
            None => None,
        }
    }

    /// The identifier in hyphenated UUID text.
    pub fn to_string(&self) -> (r: String)
        ensures
            r@ == uuid_text(self.value),
            r@.len() == 36,
    {
        hyphenated(self.value)
    }
}

} // verus!
