//! Identifiers: universally unique ids, read from text by the `uuid` crate.
use vstd::arithmetic::power::pow;
use vstd::prelude::*;

verus! {

/// The id that `uuid::Uuid::parse_str` reads from a text, as its 128-bit
/// value, or `None` where the text is no id in any of the forms it accepts.
pub uninterp spec fn uuid_parse(text: Seq<char>) -> Option<u128>;

/// Reads an id from a text with `uuid::Uuid::parse_str` (which
/// `Uuid::from_str` calls). The result is tied to the text through
/// `uuid_parse`; of the several forms the crate reads, the contract states
/// that the hyphenated lowercase one gives back its id.
#[verifier::external_body]
pub(crate) fn parse_uuid(text: &str) -> (r: Option<u128>)
    ensures
        r == uuid_parse(text@),
        forall|id: u128| text@ == uuid_text(id) ==> r == Some(id),
{
    match uuid::Uuid::parse_str(text) {
        Ok(id) => Some(id.as_u128()),
        Err(_) => None,
    }
}

/// A lowercase hexadecimal digit.
pub open spec fn hex_lower(n: int) -> char {
    if n < 10 {
        (48 + n) as char
    } else {
        (87 + n) as char
    }
}

/// The `k`-th of the 32 hexadecimal digits of an id, most significant first.
pub open spec fn id_digit(id: u128, k: int) -> int {
    (id as int / pow(16, (31 - k) as nat)) % 16
}

/// The hyphens before position `i` of the hyphenated form.
pub open spec fn hyphens_before(i: int) -> int {
    if i > 23 {
        4
    } else if i > 18 {
        3
    } else if i > 13 {
        2
    } else if i > 8 {
        1
    } else {
        0
    }
}

/// The text an id is displayed as: its 32 lowercase hexadecimal digits,
/// most significant first, in groups of 8, 4, 4, 4 and 12 separated by
/// hyphens.
pub open spec fn uuid_text(id: u128) -> Seq<char> {
    Seq::new(
        36,
        |i: int|
            if i == 8 || i == 13 || i == 18 || i == 23 {
                '-'
            } else {
                hex_lower(id_digit(id, i - hyphens_before(i)))
            },
    )
}

/// The display text of an id has 36 characters: hyphens at positions 8,
/// 13, 18 and 23, and a lowercase hexadecimal digit everywhere else.
pub proof fn lemma_uuid_text_shape(id: u128)
    ensures
        uuid_text(id).len() == 36,
        forall|i: int|
            0 <= i < 36 ==> {
                let c = #[trigger] uuid_text(id)[i] as int;
                if i == 8 || i == 13 || i == 18 || i == 23 {
                    c == '-' as int
                } else {
                    (48 <= c <= 57) || (97 <= c <= 102)
                }
            },
{
    assert forall|i: int| 0 <= i < 36 && !(i == 8 || i == 13 || i == 18 || i == 23) implies {
        let c = #[trigger] uuid_text(id)[i] as int;
        (48 <= c <= 57) || (97 <= c <= 102)
    } by {
        let n = id_digit(id, i - hyphens_before(i));
        assert(0 <= n < 16);
    }
}

/// The display text of an id, made by `uuid::Uuid`'s `Display` (its
/// hyphenated lowercase form, which `from_u128` fills with the id's bytes
/// most significant first).
#[verifier::external_body]
pub(crate) fn uuid_to_string(id: u128) -> (r: String)
    ensures
        r@ == uuid_text(id),
{
    uuid::Uuid::from_u128(id).to_string()
}

} // verus!
