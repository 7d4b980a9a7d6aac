//! What holds of every version, stated over the views that the contracts of
//! the library use: reading what was written gives the version back, and no
//! operation touches the prefix.

use crate::grammar::{is_digit, is_semver, lemma_semver_starts_with_digit};
use crate::semver_api::MAX_TEXT_LEN;
use crate::version::{lemma_parse_is, parse, VersionView};
use vstd::prelude::*;

verus! {

/// Writing a version out and reading the text again gives the same version,
/// where the text is at most [`MAX_TEXT_LEN`] characters long and no semantic
/// version starts in it before the end of the prefix.
///
/// A prefix such as `1.2.3-` breaks the second condition: behind it the
/// version 4.5.6 is written `1.2.3-4.5.6`, which reads as 1.2.3 with the
/// pre-release label `4.5.6` and no prefix.
pub proof fn lemma_round_trip(v: VersionView)
    requires
        v.wf(),
        v.text().len() <= MAX_TEXT_LEN,
        forall|j: int| 0 <= j < v.prefix.len() ==> !is_semver(#[trigger] v.text().skip(j)),
    ensures
        parse(v.text()) == Some(v),
{
    lemma_parse_is(v.text(), v);
}

/// A prefix without digits comes through reading and through every
/// operation: the text of a version behind such a prefix reads as that
/// version with that prefix, and each of the five operations keeps the prefix.
pub proof fn lemma_prefix_preserved(v: VersionView, label: Seq<char>)
    requires
        v.wf(),
        v.text().len() <= MAX_TEXT_LEN,
        forall|k: int| 0 <= k < v.prefix.len() ==> !is_digit(#[trigger] v.prefix[k]),
    ensures
        parse(v.text()) == Some(v),
        v.bump_patch().prefix == v.prefix,
        v.bump_minor().prefix == v.prefix,
        v.bump_major().prefix == v.prefix,
        v.with_pre_release(label).prefix == v.prefix,
        v.with_build(label).prefix == v.prefix,
{
    let s = v.text();
    assert forall|j: int| 0 <= j < v.prefix.len() implies !is_semver(#[trigger] s.skip(j)) by {
        if is_semver(s.skip(j)) {
            lemma_semver_starts_with_digit(s.skip(j));
            assert(s.skip(j)[0] == v.prefix[j]);
        }
    }
    lemma_round_trip(v);
}

} // verus!
