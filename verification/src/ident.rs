//! Record identifiers: 128-bit UUID values, their text and their parsing,
//! as the `uuid` crate provides them.
use vstd::prelude::*;

verus! {

/// The lower-case hexadecimal digits.
pub open spec fn hex_digits() -> Seq<char> {
    seq!['0', '1', '2', '3', '4', '5', '6', '7', '8', '9', 'a', 'b', 'c', 'd', 'e', 'f']
}

/// The `k`-th hexadecimal digit of `v`, counting from the most significant (k in 0..32).
pub open spec fn nibble(v: u128, k: int) -> int {
    ((v >> ((124 - 4 * k) as u128)) & 15u128) as int
}

/// Number of hyphens that stand before position `p` of the hyphenated text.
pub open spec fn hyphens_before(p: int) -> int {
    if p < 9 {
        0
    } else if p < 14 {
        1
    } else if p < 19 {
        2
    } else if p < 24 {
        3
    } else {
        4
    }
}

/// The hyphenated lower-case text of a UUID value, such as
/// `67e55044-10b1-426f-9247-bb680e5fe0c8`: 36 characters, hyphens at
/// positions 8, 13, 18 and 23, the 32 hex digits of the value in between.
pub open spec fn uuid_text(v: u128) -> Seq<char> {
    Seq::new(
        36,
        |p: int|
            if p == 8 || p == 13 || p == 18 || p == 23 {
                '-'
            } else {
                hex_digits()[nibble(v, p - hyphens_before(p))]
            },
    )
}

/// A value that `Uuid::new_v4` can return: version nibble 4 and the
/// RFC 4122 variant bits `10`.
pub open spec fn is_random_uuid(v: u128) -> bool {
    &&& (v >> 76u128) & 15u128 == 4u128
    &&& (v >> 62u128) & 3u128 == 2u128
}

/// What `uuid::Uuid::parse_str` gives for a text: the value, or the text
/// of its error.
pub uninterp spec fn uuid_parse(s: Seq<char>) -> Result<u128, Seq<char>>;

/// Calls `uuid::Uuid::new_v4` and returns the value as a `u128`
/// (`Uuid::as_u128`). The value is random: the contract states only the
/// version and variant bits that `new_v4` sets on every value.
#[verifier::external_body]
pub(crate) fn new_random_uuid() -> (r: u128)
    ensures
        is_random_uuid(r),
{
    uuid::Uuid::new_v4().as_u128()
}

/// Calls `Display` of `uuid::Uuid::from_u128(id)` (that is, `to_string`),
/// which writes the hyphenated lower-case form.
#[verifier::external_body]
pub(crate) fn format_uuid(id: u128) -> (r: String)
    ensures
        r@ == uuid_text(id),
{
    uuid::Uuid::from_u128(id).to_string()
}

/// The text of an identifier, as the store keeps it and the API shows it:
/// hyphenated lower-case hex.
pub fn id_text(id: u128) -> (r: String)
    ensures
        r@ == uuid_text(id),
{
    format_uuid(id)
}

/// Calls `uuid::Uuid::parse_str(s)`; a value comes back as `Uuid::as_u128`,
/// an error as its `to_string`. Both are named by `uuid_parse`. The one fact
/// stated beside the name: the hyphenated text of a value (which
/// `parse_hyphenated` accepts) parses back to that value.
#[verifier::external_body]
pub(crate) fn parse_uuid(s: &str) -> (r: Result<u128, String>)
    ensures
        (match r {
            Ok(v) => Ok::<u128, Seq<char>>(v),
            Err(m) => Err(m@),
        }) == uuid_parse(s@),
        r is Err ==> forall|v: u128| s@ != #[trigger] uuid_text(v),
        r matches Ok(w) ==> forall|v: u128| s@ == #[trigger] uuid_text(v) ==> w == v,
{
    match uuid::Uuid::parse_str(s) {
        Ok(u) => Ok(u.as_u128()),
        Err(e) => Err(e.to_string()),
    }
}

} // verus!
