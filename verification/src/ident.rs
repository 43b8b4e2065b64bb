//! Entity identifiers: 128-bit values minted, rendered and parsed by the
//! `uuid` crate.

use vstd::arithmetic::div_mod::{
    lemma_basic_div, lemma_div_denominator, lemma_fundamental_div_mod,
};
use vstd::arithmetic::power::{lemma_pow0, lemma_pow1, lemma_pow_adds, lemma_pow_positive, pow};
use vstd::prelude::*;
use vstd::string::*;

verus! {

/// The identifier of a product, an order or an order item: the 128 bits of a
/// UUID, most significant byte first.
#[derive(Debug, Clone, Copy, PartialEq, Eq, Structural)]
pub struct EntityId {
    pub value: u128,
}

/// The bits of an identifier that hold its version and its variant.
pub const VERSION_VARIANT_MASK: u128 = 0x0000_0000_0000_f000_c000_0000_0000_0000u128;

/// What those bits hold in a random (version 4) identifier.
pub const RANDOM_VERSION_VARIANT: u128 = 0x0000_0000_0000_4000_8000_0000_0000_0000u128;

/// Whether `value` has the version and variant bits of a random identifier.
pub open spec fn is_random_id(value: u128) -> bool {
    value & VERSION_VARIANT_MASK == RANDOM_VERSION_VARIANT
}

/// The lowercase hexadecimal digit for a value below sixteen.
pub open spec fn hex_digit(n: int) -> char {
    if n < 10 {
        ((n + 48) as u8) as char
    } else {
        ((n + 87) as u8) as char
    }
}

/// The `k`-th hexadecimal digit of `value`, counted from the most significant
/// of its thirty-two.
pub open spec fn id_digit(value: u128, k: int) -> int {
    (value as int / pow(16, (31 - k) as nat)) % 16
}

/// Where the `k`-th hexadecimal digit stands in the canonical text.
pub open spec fn digit_place(k: int) -> int {
    if k < 8 {
        k
    } else if k < 12 {
        k + 1
    } else if k < 16 {
        k + 2
    } else if k < 20 {
        k + 3
    } else {
        k + 4
    }
}

/// The canonical text of an identifier: thirty-two lowercase hexadecimal
/// digits in groups of 8, 4, 4, 4 and 12, with a hyphen between groups.
pub open spec fn id_text(value: u128) -> Seq<char> {
    Seq::new(
        36,
        |i: int|
            if i == 8 || i == 13 || i == 18 || i == 23 {
                '-'
            } else if i < 8 {
                hex_digit(id_digit(value, i))
            } else if i < 13 {
                hex_digit(id_digit(value, i - 1))
            } else if i < 18 {
                hex_digit(id_digit(value, i - 2))
            } else if i < 23 {
                hex_digit(id_digit(value, i - 3))
            } else {
                hex_digit(id_digit(value, i - 4))
            },
    )
}

/// What `uuid::Uuid::parse_str` makes of a text: the identifier's 128 bits, or
/// nothing where it rejects the text.
pub uninterp spec fn uuid_parse(text: Seq<char>) -> Option<u128>;

/// Calls `uuid::Uuid::new_v4`. The value is random; all that is claimed is that
/// the version and variant bits are those of a version 4 identifier, which the
/// function sets by masking.
#[verifier::external_body]
fn mint_value() -> (value: u128)
    ensures
        is_random_id(value),
{
    uuid::Uuid::new_v4().as_u128()
}

/// Calls the `Display` impl of `uuid::Uuid`, which writes the hyphenated
/// lowercase form.
#[verifier::external_body]
fn render_value(value: u128) -> (text: String)
    ensures
        text@ == id_text(value),
{
    uuid::Uuid::from_u128(value).to_string()
}

/// Calls `uuid::Uuid::parse_str`. The parser accepts several spellings; the
/// result is named, and it is claimed that the canonical text of an identifier
/// parses back to that identifier.
#[verifier::external_body]
fn parse_value(text: &str) -> (value: Option<u128>)
    ensures
        value == uuid_parse(text@),
        forall|v: u128| text@ == #[trigger] id_text(v) ==> value == Some(v),
{
    match uuid::Uuid::parse_str(text) {
        Ok(id) => Some(id.as_u128()),
        Err(_) => None,
    }
}

impl EntityId {
    /// The canonical text of this identifier.
    pub open spec fn text(self) -> Seq<char> {
        id_text(self.value)
    }

    /// The identifier that a text spells, if it spells one.
    pub open spec fn parse_spec(text: Seq<char>) -> Option<EntityId> {
        match uuid_parse(text) {
            Some(value) => Some(EntityId { value }),
            None => None,
        }
    }

    pub fn new(value: u128) -> (id: EntityId)
        ensures
            id.value == value,
    {
        EntityId { value }
    }

    /// Mints a fresh random identifier.
    pub fn mint() -> (id: EntityId)
        ensures
            is_random_id(id.value),
    {
        EntityId { value: mint_value() }
    }

    /// Renders the identifier in its canonical form.
    pub fn to_text(&self) -> (text: String)
        ensures
            text@ == self.text(),
    {
        render_value(self.value)
    }

    /// Reads an identifier from text.
    pub fn parse(text: &str) -> (id: Option<EntityId>)
        ensures
            id == Self::parse_spec(text@),
            forall|other: EntityId| text@ == #[trigger] other.text() ==> id == Some(other),
    {
        match parse_value(text) {
            Some(value) => Some(EntityId { value }),
            None => None,
        }
    }
}

/// The value of the first `n` hexadecimal digits of `value`.
pub open spec fn leading_digits(value: int, n: nat) -> int {
    value / pow(16, (32 - n) as nat)
}

/// Sixteen to the thirty-second is two to the hundred and twenty-eighth.
proof fn lemma_sixteen_to_32()
    ensures
        pow(16, 32) == 0x1_0000_0000_0000_0000_0000_0000_0000_0000,
{
    lemma_pow1(16);
    lemma_pow_adds(16, 1, 1);
    lemma_pow_adds(16, 2, 2);
    lemma_pow_adds(16, 4, 4);
    lemma_pow_adds(16, 8, 8);
    lemma_pow_adds(16, 16, 16);
    assert(pow(16, 2) == 0x100) by (nonlinear_arith)
        requires
            pow(16, 2) == pow(16, 1) * pow(16, 1),
            pow(16, 1) == 16,
    ;
    assert(pow(16, 4) == 0x1_0000) by (nonlinear_arith)
        requires
            pow(16, 4) == pow(16, 2) * pow(16, 2),
            pow(16, 2) == 0x100,
    ;
    assert(pow(16, 8) == 0x1_0000_0000) by (nonlinear_arith)
        requires
            pow(16, 8) == pow(16, 4) * pow(16, 4),
            pow(16, 4) == 0x1_0000,
    ;
    assert(pow(16, 16) == 0x1_0000_0000_0000_0000) by (nonlinear_arith)
        requires
            pow(16, 16) == pow(16, 8) * pow(16, 8),
            pow(16, 8) == 0x1_0000_0000,
    ;
    assert(pow(16, 32) == 0x1_0000_0000_0000_0000_0000_0000_0000_0000) by (nonlinear_arith)
        requires
            pow(16, 32) == pow(16, 16) * pow(16, 16),
            pow(16, 16) == 0x1_0000_0000_0000_0000,
    ;
}

/// One more leading digit: sixteen times the digits so far, plus the next.
proof fn lemma_next_digit(value: u128, n: nat)
    requires
        n < 32,
    ensures
        leading_digits(value as int, n + 1) == 16 * leading_digits(value as int, n) + id_digit(
            value,
            n as int,
        ),
        0 <= id_digit(value, n as int) < 16,
{
    let m = (31 - n) as nat;
    let d = pow(16, m);
    lemma_pow_positive(16, m);
    lemma_pow1(16);
    lemma_pow_adds(16, m, 1);
    assert(pow(16, (32 - n) as nat) == d * 16);
    let q = value as int / d;
    lemma_div_denominator(value as int, d, 16);
    lemma_fundamental_div_mod(q, 16);
    assert(leading_digits(value as int, n + 1) == q);
    assert(leading_digits(value as int, n) == q / 16);
}

/// Two identifiers with the same digits up to a place have the same value
/// up to that place.
proof fn lemma_same_leading_digits(a: u128, b: u128, n: nat)
    requires
        n <= 32,
        forall|k: int| 0 <= k < 32 ==> id_digit(a, k) == id_digit(b, k),
    ensures
        leading_digits(a as int, n) == leading_digits(b as int, n),
    decreases n,
{
    if n == 0 {
        lemma_sixteen_to_32();
        lemma_basic_div(a as int, pow(16, 32));
        lemma_basic_div(b as int, pow(16, 32));
    } else {
        lemma_same_leading_digits(a, b, (n - 1) as nat);
        lemma_next_digit(a, (n - 1) as nat);
        lemma_next_digit(b, (n - 1) as nat);
    }
}

/// Two identifiers with the same canonical text are the same.
pub proof fn lemma_text_injective(a: EntityId, b: EntityId)
    requires
        a.text() == b.text(),
    ensures
        a == b,
{
    assert forall|k: int| 0 <= k < 32 implies id_digit(a.value, k) == id_digit(b.value, k) by {
        lemma_next_digit(a.value, k as nat);
        lemma_next_digit(b.value, k as nat);
        let place = digit_place(k);
        assert(id_text(a.value)[place] == hex_digit(id_digit(a.value, k)));
        assert(id_text(b.value)[place] == hex_digit(id_digit(b.value, k)));
        assert(hex_digit(id_digit(a.value, k)) as u8 == hex_digit(id_digit(b.value, k)) as u8);
    }
    lemma_same_leading_digits(a.value, b.value, 32);
    lemma_pow0(16);
    assert(leading_digits(a.value as int, 32) == a.value as int);
    assert(leading_digits(b.value as int, 32) == b.value as int);
}

} // verus!
