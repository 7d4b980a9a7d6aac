//! The calls into the `semver` crate. Verus takes the contracts in this file
//! on trust: they say of each call what the crate's source shows.

use crate::grammar::{is_build_label, is_prerelease_label, is_semver, valid_parts, version_text};
use vstd::prelude::*;

verus! {

/// The longest text, in characters, that is handed to `semver`.
///
/// `semver` keeps a label of nine bytes or more on the heap and panics where
/// the length comes within a few bytes of `isize::MAX` on a 32-bit machine, or
/// reaches 2^56 bytes on any. A text of at most this many characters has no
/// label that long.
pub const MAX_TEXT_LEN: usize = 0x4000_0000;

/// The error of `semver`'s parsers. Nothing is read from it.
#[verifier::external_type_specification]
#[verifier::external_body]
pub struct ExSemverError(semver::Error);

/// The label that `semver` hands out as a text: an empty text stands for no
/// label.
pub open spec fn label_of(text: Seq<char>) -> Option<Seq<char>> {
    if text.len() == 0 {
        None
    } else {
        Some(text)
    }
}

/// `semver::Version::parse`, with the fields of the version it returns.
///
/// The parser reads a number without leading zero that fits in 64 bits, a
/// dot, a second such number, a dot, a third; then, if a `-` follows, a
/// pre-release label; then, if a `+` follows, a build label; and fails unless
/// the text ends there. So it succeeds on the texts of the grammar and on no
/// others, and on success the text is the one its result is written as.
#[verifier::external_body]
pub(crate) fn parse_version(text: &str) -> (r: Result<
    (u64, u64, u64, String, String),
    semver::Error,
>)
    requires
        text@.len() <= MAX_TEXT_LEN,
    ensures
        match r {
            Ok(parts) => {
                &&& valid_parts(
                    parts.0 as nat,
                    parts.1 as nat,
                    parts.2 as nat,
                    label_of(parts.3@),
                    label_of(parts.4@),
                )
                &&& text@ == version_text(
                    parts.0 as nat,
                    parts.1 as nat,
                    parts.2 as nat,
                    label_of(parts.3@),
                    label_of(parts.4@),
                )
            },
            Err(_) => !is_semver(text@),
        },
{
    match semver::Version::parse(text) {
        Ok(v) => Ok(
            (v.major, v.minor, v.patch, v.pre.as_str().to_owned(), v.build.as_str().to_owned()),
        ),
        Err(e) => Err(e),
    }
}

/// `semver::Prerelease::new`, with the text of the label it returns.
///
/// It accepts the empty text and every pre-release label of the grammar,
/// nothing else, and keeps the text as it is.
#[verifier::external_body]
pub(crate) fn parse_prerelease(text: &str) -> (r: Result<String, semver::Error>)
    requires
        text@.len() <= MAX_TEXT_LEN,
    ensures
        r is Ok <==> text@.len() == 0 || is_prerelease_label(text@),
        r matches Ok(label) ==> label@ == text@,
{
    match semver::Prerelease::new(text) {
        Ok(label) => Ok(label.as_str().to_owned()),
        Err(e) => Err(e),
    }
}

/// `semver::BuildMetadata::new`, with the text of the label it returns.
///
/// It accepts the empty text and every build label of the grammar, nothing
/// else, and keeps the text as it is.
#[verifier::external_body]
pub(crate) fn parse_build(text: &str) -> (r: Result<String, semver::Error>)
    requires
        text@.len() <= MAX_TEXT_LEN,
    ensures
        r is Ok <==> text@.len() == 0 || is_build_label(text@),
        r matches Ok(label) ==> label@ == text@,
{
    match semver::BuildMetadata::new(text) {
        Ok(label) => Ok(label.as_str().to_owned()),
        Err(e) => Err(e),
    }
}

} // verus!
