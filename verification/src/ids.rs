use vstd::prelude::*;
use vstd::arithmetic::power2::pow2;

verus! {

/// Lowercase hexadecimal digit for a value below sixteen.
pub open spec fn hex_digit(n: int) -> char {
    seq!['0', '1', '2', '3', '4', '5', '6', '7', '8', '9', 'a', 'b', 'c', 'd', 'e', 'f'][n]
}

/// The `k`-th hexadecimal digit of a 128-bit identifier, most significant first.
pub open spec fn id_nibble(id: u128, k: int) -> int {
    ((id as int) / (pow2((4 * (31 - k)) as nat) as int)) % 16
}

/// Positions of the four hyphens in the textual form of an identifier.
pub open spec fn is_hyphen_position(p: int) -> bool {
    p == 8 || p == 13 || p == 18 || p == 23
}

/// Number of hyphens that stand before position `p` of the textual form.
pub open spec fn hyphens_before(p: int) -> int {
    if p < 8 {
        0
    } else if p < 13 {
        1
    } else if p < 18 {
        2
    } else if p < 23 {
        3
    } else {
        4
    }
}

/// The hyphenated lowercase form of a 128-bit identifier: 32 hexadecimal digits,
/// most significant first, grouped 8-4-4-4-12, such as
/// `67e55044-10b1-426f-9247-bb680e5fe0c8`.
pub open spec fn uuid_hyphenated(id: u128) -> Seq<char> {
    Seq::new(
        36,
        |p: int|
            if is_hyphen_position(p) {
                '-'
            } else {
                hex_digit(id_nibble(id, p - hyphens_before(p)))
            },
    )
}

/// What `uuid::Uuid::parse_str` gives for a text, as a 128-bit value.
pub uninterp spec fn uuid_parsed(text: Seq<char>) -> Option<u128>;

/// `uuid::Uuid::to_string` (the `Display` of `uuid::Uuid`) of the identifier
/// built by `uuid::Uuid::from_u128`: the hyphenated lowercase form, which
/// `uuid::Uuid::parse_str` reads back to the same identifier.
#[verifier::external_body]
pub fn uuid_to_string(id: u128) -> (r: String)
    ensures
        r@ == uuid_hyphenated(id),
        uuid_parsed(r@) == Some(id),
{
    uuid::Uuid::from_u128(id).to_string()
}

/// `uuid::Uuid::parse_str`, the result taken as a 128-bit value by
/// `uuid::Uuid::as_u128`. Besides naming the result, the contract states that
/// the hyphenated lowercase form of an identifier parses back to it; which
/// other texts parse (simple, braced and URN forms, uppercase digits) is left
/// to the name.
#[verifier::external_body]
pub fn uuid_parse(text: &str) -> (r: Option<u128>)
    ensures
        r == uuid_parsed(text@),
        forall|id: u128| text@ == #[trigger] uuid_hyphenated(id) ==> r == Some(id),
{
    match uuid::Uuid::parse_str(text) {
        Ok(u) => Some(u.as_u128()),
        Err(_) => None,
    }
}

} // verus!
