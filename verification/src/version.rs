//! A semantic version behind a free-text prefix: reading one out of a text,
//! writing it back, and the five operations on it.

use crate::error::{AppError, AppErrorView};
use crate::grammar::{
    decimal, digit_char, is_build_label, is_digit, is_prerelease_label, is_semver,
    lemma_semver_starts_with_digit, lemma_version_text_injective, signed_label, valid_parts,
    version_text,
};
use crate::semver_api::{label_of, parse_build, parse_prerelease, parse_version, MAX_TEXT_LEN};
use crate::source::{resolve, resolve_source, source_text, text_of};
use crate::text::{opt_view, read_view};
use vstd::prelude::*;
use vstd::string::{StrSliceExecFns, StringExecFns};

verus! {

/// A version as a mathematical value.
pub struct VersionView {
    /// The text before the numbers, kept as it was read.
    pub prefix: Seq<char>,
    pub major: nat,
    pub minor: nat,
    pub patch: nat,
    /// The label behind `-`, if there is one.
    pub pre_release: Option<Seq<char>>,
    /// The label behind `+`, if there is one.
    pub build_metadata: Option<Seq<char>>,
}

impl VersionView {
    /// The numbers fit in 64 bits and the labels that are present are well
    /// formed.
    pub open spec fn wf(self) -> bool {
        valid_parts(self.major, self.minor, self.patch, self.pre_release, self.build_metadata)
    }

    /// The version written without its prefix.
    pub open spec fn body(self) -> Seq<char> {
        version_text(self.major, self.minor, self.patch, self.pre_release, self.build_metadata)
    }

    /// The version written out: the prefix, then the body.
    pub open spec fn text(self) -> Seq<char> {
        self.prefix + self.body()
    }

    /// The next patch release: no labels.
    pub open spec fn bump_patch(self) -> VersionView {
        VersionView {
            patch: self.patch + 1,
            pre_release: None,
            build_metadata: None,
            ..self
        }
    }

    /// The next minor release: patch 0, no labels.
    pub open spec fn bump_minor(self) -> VersionView {
        VersionView {
            minor: self.minor + 1,
            patch: 0,
            pre_release: None,
            build_metadata: None,
            ..self
        }
    }

    /// The next major release: minor and patch 0, no labels.
    pub open spec fn bump_major(self) -> VersionView {
        VersionView {
            major: self.major + 1,
            minor: 0,
            patch: 0,
            pre_release: None,
            build_metadata: None,
            ..self
        }
    }

    /// The same version with `label` as its pre-release label.
    pub open spec fn with_pre_release(self, label: Seq<char>) -> VersionView {
        VersionView { pre_release: Some(label), ..self }
    }

    /// The same version with `label` as its build label.
    pub open spec fn with_build(self, label: Seq<char>) -> VersionView {
        VersionView { build_metadata: Some(label), ..self }
    }
}

/// `s` reads as `v`: it is `v` written out, it is short enough to be looked
/// at, and the body of `v` starts at the first place of `s` from which the
/// rest is a semantic version.
pub open spec fn parses_as(s: Seq<char>, v: VersionView) -> bool {
    &&& s.len() <= MAX_TEXT_LEN
    &&& v.wf()
    &&& s == v.text()
    &&& forall|j: int| 0 <= j < v.prefix.len() ==> !is_semver(#[trigger] s.skip(j))
}

/// The version that `s` reads as, if it reads as one.
pub open spec fn parse(s: Seq<char>) -> Option<VersionView> {
    if exists|v: VersionView| parses_as(s, v) {
        Some(choose|v: VersionView| parses_as(s, v))
    } else {
        None
    }
}

/// A text reads as one version at most.
pub proof fn lemma_parses_as_unique(s: Seq<char>, v1: VersionView, v2: VersionView)
    requires
        parses_as(s, v1),
        parses_as(s, v2),
    ensures
        v1 == v2,
{
    let n1 = v1.prefix.len() as int;
    let n2 = v2.prefix.len() as int;
    assert(s.skip(n1) =~= v1.body());
    assert(s.skip(n2) =~= v2.body());
    assert(is_semver(v1.body()));
    assert(is_semver(v2.body()));
    assert(n1 == n2);
    assert(v1.prefix =~= s.take(n1));
    assert(v2.prefix =~= s.take(n2));
    lemma_version_text_injective(
        v1.major,
        v1.minor,
        v1.patch,
        v1.pre_release,
        v1.build_metadata,
        v2.major,
        v2.minor,
        v2.patch,
        v2.pre_release,
        v2.build_metadata,
    );
}

/// A text that reads as `v` has `v` as its parse.
pub proof fn lemma_parse_is(s: Seq<char>, v: VersionView)
    requires
        parses_as(s, v),
    ensures
        parse(s) == Some(v),
{
    lemma_parses_as_unique(s, v, choose|w: VersionView| parses_as(s, w));
}

/// The version that the command line and what was read for it give.
///
/// `file` and `ver` are the file option and the version argument, and
/// `contents` is what reading the source they stand for gave. The source is
/// resolved, its text is taken, and the text is parsed; the first of the three
/// that fails gives the error.
pub open spec fn version_from(
    file: Option<Seq<char>>,
    ver: Option<Seq<char>>,
    stdin_is_piped: bool,
    contents: Result<Seq<char>, Seq<char>>,
) -> Result<VersionView, AppErrorView> {
    match resolve(file, ver, stdin_is_piped) {
        Err(e) => Err(e),
        Ok(source) => match text_of(source, contents) {
            Err(e) => Err(e),
            Ok(text) => match parse(text) {
                Some(v) => Ok(v),
                None => Err(AppErrorView::NotASemanticVersion(text)),
            },
        },
    }
}

/// A semantic version with the text that stood before it.
#[derive(Debug, PartialEq, Eq)]
pub struct Version {
    prefix: String,
    major: u64,
    minor: u64,
    patch: u64,
    pre_release: Option<String>,
    build_metadata: Option<String>,
}

impl View for Version {
    type V = VersionView;

    closed spec fn view(&self) -> VersionView {
        VersionView {
            prefix: self.prefix@,
            major: self.major as nat,
            minor: self.minor as nat,
            patch: self.patch as nat,
            pre_release: opt_view(self.pre_release),
            build_metadata: opt_view(self.build_metadata),
        }
    }
}

/// Tells whether `c` is an ASCII decimal digit.
fn digit(c: char) -> (r: bool)
    ensures
        r == is_digit(c),
{
    '0' <= c && c <= '9'
}

/// The label in a text that `semver` handed out.
fn label_from(text: String) -> (r: Option<String>)
    ensures
        opt_view(r) == label_of(text@),
{
    if text.as_str().is_empty() {
        None
    } else {
        Some(text)
    }
}

/// A copy of a label that may be absent.
fn clone_label(label: &Option<String>) -> (r: Option<String>)
    ensures
        opt_view(r) == opt_view(*label),
{
    match label {
        Some(l) => Some(l.clone()),
        None => None,
    }
}

impl Clone for Version {
    fn clone(&self) -> (r: Version)
        ensures
            r@ == self@,
    {
        proof {
            use_type_invariant(self);
        }
        Version {
            prefix: self.prefix.clone(),
            major: self.major,
            minor: self.minor,
            patch: self.patch,
            pre_release: clone_label(&self.pre_release),
            build_metadata: clone_label(&self.build_metadata),
        }
    }
}

impl Version {
    #[verifier::type_invariant]
    spec fn valid(&self) -> bool {
        self@.wf()
    }

    /// The text before the numbers.
    pub fn prefix(&self) -> (r: &str)
        ensures
            r@ == self@.prefix,
    {
        self.prefix.as_str()
    }

    /// The major number.
    pub fn major(&self) -> (r: u64)
        ensures
            r == self@.major,
    {
        self.major
    }

    /// The minor number.
    pub fn minor(&self) -> (r: u64)
        ensures
            r == self@.minor,
    {
        self.minor
    }

    /// The patch number.
    pub fn patch(&self) -> (r: u64)
        ensures
            r == self@.patch,
    {
        self.patch
    }

    /// The pre-release label, if there is one.
    pub fn pre_release(&self) -> (r: &Option<String>)
        ensures
            opt_view(*r) == self@.pre_release,
    {
        &self.pre_release
    }

    /// The build label, if there is one.
    pub fn build_metadata(&self) -> (r: &Option<String>)
        ensures
            opt_view(*r) == self@.build_metadata,
    {
        &self.build_metadata
    }

    /// Reads a version out of `s`.
    ///
    /// The numbers start at the first place of `s` from which the rest is a
    /// semantic version; what stands before is the prefix. There is no such
    /// place in a text of more than [`MAX_TEXT_LEN`] characters.
    pub fn from_str(s: &str) -> (r: Result<Version, AppError>)
        ensures
            match r {
                Ok(v) => v@.wf() && parse(s@) == Some(v@),
                Err(e) => parse(s@) is None && e@ == AppErrorView::NotASemanticVersion(s@),
            },
    {
        let n = s.unicode_len();
        if n > MAX_TEXT_LEN {
            return Err(AppError::NotASemanticVersion(String::from_str(s)));
        }
        let mut i: usize = 0;
        for c in it: s.chars()
            invariant
                n == s@.len(),
                n <= MAX_TEXT_LEN,
                i == it.index(),
                it.seq() == s@,
                forall|j: int| 0 <= j < i ==> !is_semver(#[trigger] s@.skip(j)),
        {
            if digit(c) {
                let body = s.substring_char(i, n);
                assert(body@ =~= s@.skip(i as int));
                match parse_version(body) {
                    Ok(parts) => {
                        let prefix = String::from_str(s.substring_char(0, i));
                        let v = Version {
                            prefix,
                            major: parts.0,
                            minor: parts.1,
                            patch: parts.2,
                            pre_release: label_from(parts.3),
                            build_metadata: label_from(parts.4),
                        };
                        proof {
                            assert(s@ =~= s@.subrange(0, i as int) + s@.skip(i as int));
                            assert(parses_as(s@, v@));
                            lemma_parse_is(s@, v@);
                        }
                        return Ok(v);
                    },
                    Err(_) => {},
                }
            } else {
                proof {
                    if is_semver(s@.skip(i as int)) {
                        lemma_semver_starts_with_digit(s@.skip(i as int));
                    }
                }
            }
            i += 1;
        }
        proof {
            assert forall|v: VersionView| !parses_as(s@, v) by {
                if parses_as(s@, v) {
                    let k = v.prefix.len() as int;
                    assert(s@.skip(k) =~= v.body());
                    lemma_semver_starts_with_digit(v.body());
                }
            }
        }
        Err(AppError::NotASemanticVersion(String::from_str(s)))
    }

    /// Reads the version that the command line names.
    ///
    /// `value` holds the file option and the version argument, in this
    /// order. `contents` is what the caller read from the source that
    /// [`resolve_source`] picks for them, or the cause for which it could not
    /// be read; it is not looked at where that source is the argument, or
    /// where there is no source.
    pub fn try_from(
        value: (Option<String>, Option<String>),
        stdin_is_piped: bool,
        contents: &Result<String, String>,
    ) -> (r: Result<Version, AppError>)
        ensures
            match r {
                Ok(v) => v@.wf() && version_from(
                    opt_view(value.0),
                    opt_view(value.1),
                    stdin_is_piped,
                    read_view(*contents),
                ) == Ok::<VersionView, AppErrorView>(v@),
                Err(e) => version_from(
                    opt_view(value.0),
                    opt_view(value.1),
                    stdin_is_piped,
                    read_view(*contents),
                ) == Err::<VersionView, AppErrorView>(e@),
            },
    {
        let source = match resolve_source(&value.0, &value.1, stdin_is_piped) {
            Ok(source) => source,
            Err(e) => return Err(e),
        };
        let text = match source_text(&source, contents) {
            Ok(text) => text,
            Err(e) => return Err(e),
        };
        Version::from_str(text.as_str())
    }

    /// Writes the version out: the prefix, the three numbers with dots
    /// between them, and the labels that are present, each behind its sign.
    pub fn to_string(&self) -> (r: String)
        ensures
            r@ == self@.text(),
    {
        let mut out = self.prefix.clone();
        push_decimal(&mut out, self.major);
        push_sign(&mut out, '.');
        push_decimal(&mut out, self.minor);
        push_sign(&mut out, '.');
        push_decimal(&mut out, self.patch);
        push_label(&mut out, '-', &self.pre_release);
        push_label(&mut out, '+', &self.build_metadata);
        proof {
            assert(out@ =~= self@.text());
        }
        out
    }

    /// The next patch release: patch one higher, labels dropped.
    pub fn bump_patch(&self) -> (r: Version)
        requires
            self@.patch < u64::MAX,
        ensures
            r@ == self@.bump_patch(),
            r@.wf(),
    {
        Version {
            prefix: self.prefix.clone(),
            major: self.major,
            minor: self.minor,
            patch: self.patch + 1,
            pre_release: None,
            build_metadata: None,
        }
    }

    /// The next minor release: minor one higher, patch 0, labels dropped.
    pub fn bump_minor(&self) -> (r: Version)
        requires
            self@.minor < u64::MAX,
        ensures
            r@ == self@.bump_minor(),
            r@.wf(),
    {
        Version {
            prefix: self.prefix.clone(),
            major: self.major,
            minor: self.minor + 1,
            patch: 0,
            pre_release: None,
            build_metadata: None,
        }
    }

    /// The next major release: major one higher, minor and patch 0, labels
    /// dropped.
    pub fn bump_major(&self) -> (r: Version)
        requires
            self@.major < u64::MAX,
        ensures
            r@ == self@.bump_major(),
            r@.wf(),
    {
        Version {
            prefix: self.prefix.clone(),
            major: self.major + 1,
            minor: 0,
            patch: 0,
            pre_release: None,
            build_metadata: None,
        }
    }

    /// Puts `pre` in place of the pre-release label and leaves the rest.
    ///
    /// `pre` is refused unless it is a pre-release label of at most
    /// [`MAX_TEXT_LEN`] characters; the empty text is none.
    pub fn update_pre_release(&self, pre: &str) -> (r: Result<Version, AppError>)
        ensures
            match r {
                Ok(v) => {
                    &&& is_prerelease_label(pre@)
                    &&& pre@.len() <= MAX_TEXT_LEN
                    &&& v@ == self@.with_pre_release(pre@)
                    &&& v@.wf()
                },
                Err(e) => {
                    &&& !(is_prerelease_label(pre@) && pre@.len() <= MAX_TEXT_LEN)
                    &&& e@ == AppErrorView::InvalidLabel(pre@)
                },
            },
    {
        proof {
            use_type_invariant(self);
        }
        let n = pre.unicode_len();
        if n == 0 || n > MAX_TEXT_LEN {
            return Err(AppError::InvalidLabel(String::from_str(pre)));
        }
        match parse_prerelease(pre) {
            Ok(label) => Ok(
                Version {
                    prefix: self.prefix.clone(),
                    major: self.major,
                    minor: self.minor,
                    patch: self.patch,
                    pre_release: Some(label),
                    build_metadata: clone_label(&self.build_metadata),
                },
            ),
            Err(_) => Err(AppError::InvalidLabel(String::from_str(pre))),
        }
    }

    /// Puts `build` in place of the build label and leaves the rest.
    ///
    /// `build` is refused unless it is a build label of at most
    /// [`MAX_TEXT_LEN`] characters; the empty text is none.
    pub fn update_build(&self, build: &str) -> (r: Result<Version, AppError>)
        ensures
            match r {
                Ok(v) => {
                    &&& is_build_label(build@)
                    &&& build@.len() <= MAX_TEXT_LEN
                    &&& v@ == self@.with_build(build@)
                    &&& v@.wf()
                },
                Err(e) => {
                    &&& !(is_build_label(build@) && build@.len() <= MAX_TEXT_LEN)
                    &&& e@ == AppErrorView::InvalidLabel(build@)
                },
            },
    {
        proof {
            use_type_invariant(self);
        }
        let n = build.unicode_len();
        if n == 0 || n > MAX_TEXT_LEN {
            return Err(AppError::InvalidLabel(String::from_str(build)));
        }
        match parse_build(build) {
            Ok(label) => Ok(
                Version {
                    prefix: self.prefix.clone(),
                    major: self.major,
                    minor: self.minor,
                    patch: self.patch,
                    pre_release: clone_label(&self.pre_release),
                    build_metadata: Some(label),
                },
            ),
            Err(_) => Err(AppError::InvalidLabel(String::from_str(build))),
        }
    }
}

/// The digit `d` as a text of one character.
fn digit_text(d: u64) -> (r: &'static str)
    requires
        d < 10,
    ensures
        r@ == seq![digit_char(d as nat)],
{
    proof {
        reveal_strlit("0");
        reveal_strlit("1");
        reveal_strlit("2");
        reveal_strlit("3");
        reveal_strlit("4");
        reveal_strlit("5");
        reveal_strlit("6");
        reveal_strlit("7");
        reveal_strlit("8");
        reveal_strlit("9");
    }
    let r = if d == 0 {
        "0"
    } else if d == 1 {
        "1"
    } else if d == 2 {
        "2"
    } else if d == 3 {
        "3"
    } else if d == 4 {
        "4"
    } else if d == 5 {
        "5"
    } else if d == 6 {
        "6"
    } else if d == 7 {
        "7"
    } else if d == 8 {
        "8"
    } else {
        "9"
    };
    assert(r@ =~= seq![digit_char(d as nat)]);
    r
}

/// Writes `n` in base ten at the end of `out`.
fn push_decimal(out: &mut String, n: u64)
    ensures
        final(out)@ == old(out)@ + decimal(n as nat),
    decreases n,
{
    if n >= 10 {
        push_decimal(out, n / 10);
    }
    out.append(digit_text(n % 10));
    proof {
        if n >= 10 {
            assert(out@ =~= old(out)@ + decimal(n as nat));
        }
    }
}

/// Writes the sign `.`, `-` or `+` at the end of `out`.
fn push_sign(out: &mut String, sign: char)
    requires
        sign == '.' || sign == '-' || sign == '+',
    ensures
        final(out)@ == old(out)@ + seq![sign],
{
    proof {
        reveal_strlit(".");
        reveal_strlit("-");
        reveal_strlit("+");
    }
    let text = if sign == '.' {
        "."
    } else if sign == '-' {
        "-"
    } else {
        "+"
    };
    assert(text@ =~= seq![sign]);
    out.append(text);
}

/// Writes a label behind its sign at the end of `out`, or nothing where there
/// is no label.
fn push_label(out: &mut String, sign: char, label: &Option<String>)
    requires
        sign == '-' || sign == '+',
    ensures
        final(out)@ == old(out)@ + signed_label(sign, opt_view(*label)),
{
    match label {
        Some(l) => {
            push_sign(out, sign);
            out.append(l.as_str());
            assert(out@ =~= old(out)@ + (seq![sign] + l@));
        },
        None => {
            assert(out@ =~= old(out)@ + Seq::<char>::empty());
        },
    }
}

} // verus!
