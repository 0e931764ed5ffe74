//! Fresh identifiers and the current time, which come from outside crates.
use vstd::prelude::*;

verus! {

/// The `strftime` pattern in which timestamps are written: local time with its UTC offset.
pub const TIMESTAMP_FORMAT: &'static str = "%Y-%m-%dT%H:%M:%S%z";

/// A lower-case hexadecimal digit.
pub open spec fn is_lower_hex(c: char) -> bool {
    ('0' <= c && c <= '9') || ('a' <= c && c <= 'f')
}

/// Whether `i` is the position of a hyphen in the hyphenated form of a UUID.
pub open spec fn is_uuid_hyphen_position(i: int) -> bool {
    i == 8 || i == 13 || i == 18 || i == 23
}

/// The hyphenated lower-case text of a random (version 4, RFC 4122 variant) UUID,
/// such as `67e55044-10b1-426f-9247-bb680e5fe0c8`.
pub open spec fn is_v4_uuid_text(text: Seq<char>) -> bool {
    &&& text.len() == 36
    &&& forall|i: int|
        0 <= i < 36 ==> if is_uuid_hyphen_position(i) {
            text[i] == '-'
        } else {
            is_lower_hex(#[trigger] text[i])
        }
    &&& text[14] == '4'
    &&& (text[19] == '8' || text[19] == '9' || text[19] == 'a' || text[19] == 'b')
}

/// `uuid::Uuid::new_v4` followed by its `to_string`.
/// Claimed: the text is the 36-character hyphenated lower-case form, with version
/// digit `4` and variant digit `8`, `9`, `a` or `b`. The other digits are random and
/// nothing is said of them.
#[verifier::external_body]
pub(crate) fn random_uuid_text() -> (text: String)
    ensures
        is_v4_uuid_text(text@),
{
    uuid::Uuid::new_v4().to_string()
}

/// An ASCII decimal digit.
pub open spec fn is_digit(c: char) -> bool {
    '0' <= c && c <= '9'
}

/// A year as `%Y` writes it: four digits, or a sign followed by at least four digits.
pub open spec fn is_year_text(year: Seq<char>) -> bool {
    &&& year.len() >= 4
    &&& (is_digit(year[0]) || year[0] == '+' || year[0] == '-')
    &&& forall|i: int| 1 <= i < year.len() ==> is_digit(#[trigger] year[i])
    &&& (is_digit(year[0]) ==> year.len() == 4)
}

/// Whether position `i` of the 20 characters after the year holds a digit;
/// the others hold `-`, `-`, `T`, `:`, `:` and the offset's sign.
pub open spec fn is_timestamp_tail_digit(i: int) -> bool {
    i != 0 && i != 3 && i != 6 && i != 9 && i != 12 && i != 15
}

/// The text of [`TIMESTAMP_FORMAT`]: `YYYY-MM-DDTHH:MM:SS±hhmm`, the year as
/// [`is_year_text`] says and every other field two digits.
pub open spec fn is_timestamp_text(text: Seq<char>) -> bool {
    let n = text.len() as int;
    &&& n >= 24
    &&& is_year_text(text.subrange(0, n - 20))
    &&& text[n - 20] == '-'
    &&& text[n - 17] == '-'
    &&& text[n - 14] == 'T'
    &&& text[n - 11] == ':'
    &&& text[n - 8] == ':'
    &&& (text[n - 5] == '+' || text[n - 5] == '-')
    &&& forall|i: int| 0 <= i < 20 && is_timestamp_tail_digit(i) ==> is_digit(#[trigger] text[n - 20 + i])
}

/// `chrono::Local::now()` formatted with `format` through `to_string`.
/// Only the library's own pattern is admitted (chrono's `to_string` panics on an
/// invalid pattern). Claimed: the text has that pattern's shape
/// (`is_timestamp_text`): `%Y` writes four digits (a sign and at least four outside
/// years 0 to 9999), `%m %d %H %M %S` two zero-padded digits each, `%z` a sign and
/// four digits, and the literal characters are written as they are. Which instant
/// and which offset it shows is left unsaid: they are the clock's and the time zone's.
#[verifier::external_body]
pub(crate) fn local_time_text(format: &str) -> (text: String)
    requires
        format@ == TIMESTAMP_FORMAT@,
    ensures
        is_timestamp_text(text@),
{
    chrono::Local::now().format(format).to_string()
}

} // verus!
