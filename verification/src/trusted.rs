//! The calls this crate makes into other crates, and the one function of
//! the standard library that it uses without a contract from `vstd`.
//!
//! Nothing in this file is proved. Each contract is what the rest of the
//! crate takes on trust about the function called.

use vstd::prelude::*;

verus! {

/// `String::push` of the standard library.
///
/// Assumed: the character is appended, and the characters before it stay.
pub assume_specification[ String::push ](s: &mut String, c: char)
    ensures
        final(s)@ == old(s)@.push(c),
;

/// The pattern of the time stamp in a note's file name.
pub const FILE_STAMP: &'static str = "%Y%m%d%H%M%S";

/// The pattern of the `CREATED` property.
pub const CREATED_STAMP: &'static str = "[%Y-%m-%d %a %H:%M]";

/// The pattern of the time stamp in a title that had to be made up.
pub const TITLE_STAMP: &'static str = "%Y-%m-%d %H:%M:%S UTC";

/// The patterns this crate formats moments with.
pub open spec fn is_stamp_pattern(pattern: Seq<char>) -> bool {
    pattern == FILE_STAMP@ || pattern == CREATED_STAMP@ || pattern == TITLE_STAMP@
}

/// The first second of chrono's calendar, counted from the Unix epoch: the
/// start of the year -262143, its `DateTime::<Utc>::MIN_UTC`.
pub const UTC_FIRST_SECOND: i64 = -8_334_601_228_800;

/// The last second of chrono's calendar, counted from the Unix epoch: the
/// end of the year 262142, the second of its `DateTime::<Utc>::MAX_UTC`.
pub const UTC_LAST_SECOND: i64 = 8_210_266_876_799;

/// Whether `secs` whole seconds since the Unix epoch lie in chrono's
/// calendar.
pub open spec fn utc_representable(secs: int) -> bool {
    UTC_FIRST_SECOND <= secs <= UTC_LAST_SECOND
}

/// What chrono's `DateTime::format` writes for the moment `secs` seconds
/// after the Unix epoch, in UTC, under `pattern`.
pub uninterp spec fn utc_formatted(secs: int, pattern: Seq<char>) -> Seq<char>;

/// Formats a Unix time in UTC with chrono: `DateTime::from_timestamp`, then
/// `DateTime::format` on what it returned.
///
/// Assumed: `from_timestamp` accepts a whole second exactly if its date
/// falls in the years -262143 to 262142, that is from `UTC_FIRST_SECOND` to
/// `UTC_LAST_SECOND`; and what `format` then writes depends on the moment
/// and the pattern alone. The patterns are limited to those of this crate,
/// all of which chrono accepts.
#[verifier::external_body]
pub(crate) fn format_utc(secs: i64, pattern: &str) -> (text: Option<String>)
    requires
        is_stamp_pattern(pattern@),
    ensures
        text is Some <==> utc_representable(secs as int),
        text matches Some(t) ==> t@ == utc_formatted(secs as int, pattern@),
{
    chrono::DateTime::from_timestamp(secs, 0).map(|moment| moment.format(pattern).to_string())
}

/// The characters a slug is made of, besides its separator.
pub open spec fn is_slug_char(c: char) -> bool {
    'a' <= c <= 'z' || '0' <= c <= '9'
}

/// What `slugify::slugify` returns for these arguments.
pub uninterp spec fn slugified(
    text: Seq<char>,
    stop_words: Seq<char>,
    sep: Seq<char>,
    max_length: Option<usize>,
) -> Seq<char>;

/// Makes a slug of `text` with `slugify::slugify`.
///
/// Assumed: the result depends on the arguments alone; it holds only
/// lower-case ASCII letters, digits and the first character of `sep`; and
/// it is no longer than `max_length`. The separator must start with an
/// ASCII character: `slugify` fails on any other.
#[verifier::external_body]
pub(crate) fn make_slug(
    text: &str,
    stop_words: &str,
    sep: &str,
    max_length: Option<usize>,
) -> (slug: String)
    requires
        sep@.len() > 0,
        sep@[0] <= '\u{7F}',
    ensures
        slug@ == slugified(text@, stop_words@, sep@, max_length),
        forall|i: int|
            0 <= i < slug@.len() ==> is_slug_char(#[trigger] slug@[i]) || slug@[i] == sep@[0],
        max_length matches Some(m) ==> slug@.len() <= m,
{
    slugify::slugify(text, stop_words, sep, max_length)
}

/// The shape of the identifiers that `uuidgen` makes: sixteen lower-case
/// letters or digits, in groups of four with a dash between them when
/// `dashed`.
pub open spec fn is_generated_id(id: Seq<char>, dashed: bool) -> bool {
    if dashed {
        &&& id.len() == 19
        &&& forall|i: int|
            0 <= i < 19 ==> if i == 4 || i == 9 || i == 14 {
                #[trigger] id[i] == '-'
            } else {
                is_slug_char(id[i])
            }
    } else {
        &&& id.len() == 16
        &&& forall|i: int| 0 <= i < 16 ==> is_slug_char(#[trigger] id[i])
    }
}

/// Draws a fresh identifier with `uuidgen::gen_uuid`.
///
/// Assumed: only the shape of the result. Which identifier comes out is
/// left to chance, and two calls may well differ.
#[verifier::external_body]
pub(crate) fn fresh_id(dashed: bool) -> (id: String)
    ensures
        is_generated_id(id@, dashed),
{
    uuidgen::gen_uuid(dashed)
}

} // verus!
