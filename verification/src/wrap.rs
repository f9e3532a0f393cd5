use vstd::prelude::*;

verus! {

/// Appends one character to a string (`String::push`, whose documentation
/// says it appends the given char to the end of the string).
#[verifier::external_body]
pub fn push_char(s: &mut String, c: char)
    ensures
        final(s)@ == old(s)@.push(c),
{
    s.push(c);
}

} // verus!

verus! {

/// The lower-case hexadecimal digit for `d` (0 to 15).
pub open spec fn hex_digit(d: int) -> char {
    if d < 10 {
        (48 + d) as char
    } else {
        (87 + d) as char
    }
}

/// The `i`-th of the 32 hexadecimal digits of `id`, most significant first.
pub open spec fn hex_nibble(id: u128, i: int) -> int {
    (id as int / vstd::arithmetic::power::pow(16, (31 - i) as nat)) % 16
}

/// How many hyphens come before position `k` of the hyphenated text.
pub open spec fn hyphens_before(k: int) -> int {
    if k < 8 {
        0
    } else if k < 13 {
        1
    } else if k < 18 {
        2
    } else if k < 23 {
        3
    } else {
        4
    }
}

/// The hyphenated lower-case text of a UUID given by its 128-bit value: its
/// 32 hexadecimal digits, most significant first, grouped 8-4-4-4-12.
pub open spec fn uuid_text(id: u128) -> Seq<char> {
    Seq::new(
        36,
        |k: int|
            if k == 8 || k == 13 || k == 18 || k == 23 {
                '-'
            } else {
                hex_digit(hex_nibble(id, k - hyphens_before(k)))
            },
    )
}

/// Formats an identifier as a UUID string with `uuid::Uuid::from_u128`
/// (the value's big-endian bytes) and its `Display`, which writes the
/// hyphenated lower-case form.
#[verifier::external_body]
pub fn uuid_string(id: u128) -> (r: String)
    ensures
        r@ == uuid_text(id),
{
    uuid::Uuid::from_u128(id).to_string()
}

} // verus!

verus! {

/// The text `chrono` prints for a UTC time given in whole seconds since
/// the epoch (e.g. "2015-05-15 00:00:00 UTC"), when the time is in its
/// range.
pub uninterp spec fn utc_text(secs: i64) -> Option<Seq<char>>;

/// Formats seconds since the epoch with `chrono::DateTime::from_timestamp`
/// (none when out of range) and its `Display`; the result is named by
/// `utc_text`.
#[verifier::external_body]
pub fn utc_string(secs: i64) -> (r: Option<String>)
    ensures
        crate::moderation::opt_view(r) == utc_text(secs),
{
    match chrono::DateTime::from_timestamp(secs, 0) {
        Some(d) => Some(d.to_string()),
        None => None,
    }
}

} // verus!
