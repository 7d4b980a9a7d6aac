//! The grammar of a semantic version, stated over sequences of characters.
//!
//! A version reads `major.minor.patch`, then an optional `-` and pre-release
//! label, then an optional `+` and build label. The three numbers are written
//! in base ten without leading zeros. A label is a run of identifiers
//! separated by dots; an identifier is a non-empty run of ASCII letters, digits
//! and hyphens. In a pre-release label an identifier made of digits alone has
//! no leading zero; in a build label it may have one.

use vstd::prelude::*;

verus! {

/// An ASCII decimal digit.
pub open spec fn is_digit(c: char) -> bool {
    '0' <= c && c <= '9'
}

/// A character of an identifier: an ASCII letter, a digit or a hyphen.
pub open spec fn is_ident_char(c: char) -> bool {
    is_digit(c) || ('a' <= c && c <= 'z') || ('A' <= c && c <= 'Z') || c == '-'
}

/// A character of a label: one of an identifier, or the dot between two.
pub open spec fn is_label_char(c: char) -> bool {
    is_ident_char(c) || c == '.'
}

/// The digit that stands for `d`, for `d` below ten.
pub open spec fn digit_char(d: nat) -> char {
    (('0' as u8) + (d as u8)) as char
}

/// The number that the digit `c` stands for.
pub open spec fn digit_value(c: char) -> nat {
    ((c as u8) - ('0' as u8)) as nat
}

/// `n` in base ten, without leading zeros.
pub open spec fn decimal(n: nat) -> Seq<char>
    decreases n,
{
    if n < 10 {
        seq![digit_char(n)]
    } else {
        decimal(n / 10).push(digit_char(n % 10))
    }
}

/// The number that a run of digits stands for in base ten.
pub open spec fn decimal_value(s: Seq<char>) -> nat
    decreases s.len(),
{
    if s.len() == 0 {
        0
    } else {
        decimal_value(s.drop_last()) * 10 + digit_value(s.last())
    }
}

/// Every character of `s` is a digit.
pub open spec fn all_digits(s: Seq<char>) -> bool {
    forall|k: int| 0 <= k < s.len() ==> is_digit(#[trigger] s[k])
}

/// `s[a..b]` is one identifier of the label `s`: it runs from the start of
/// `s` or from behind a dot up to the end of `s` or to the next dot.
pub open spec fn is_identifier_at(s: Seq<char>, a: int, b: int) -> bool {
    &&& 0 <= a < b <= s.len()
    &&& (a == 0 || s[a - 1] == '.')
    &&& (b == s.len() || s[b] == '.')
    &&& forall|k: int| a <= k < b ==> #[trigger] s[k] != '.'
}

/// A build label: identifiers separated by single dots, none of them empty.
pub open spec fn is_build_label(s: Seq<char>) -> bool {
    &&& s.len() > 0
    &&& forall|k: int| 0 <= k < s.len() ==> is_label_char(#[trigger] s[k])
    &&& s[0] != '.'
    &&& s[s.len() - 1] != '.'
    &&& forall|k: int| 0 < k < s.len() && #[trigger] s[k] == '.' ==> s[k - 1] != '.'
}

/// A pre-release label: a build label in which no identifier of two or more
/// digits, and digits alone, starts with a zero.
pub open spec fn is_prerelease_label(s: Seq<char>) -> bool {
    &&& is_build_label(s)
    &&& forall|a: int, b: int|
        #[trigger] is_identifier_at(s, a, b) && all_digits(s.subrange(a, b)) && b - a > 1 ==> s[a]
            != '0'
}

/// The text of a version without prefix: the three numbers, then the labels
/// that are present, each behind its sign.
pub open spec fn version_text(
    major: nat,
    minor: nat,
    patch: nat,
    pre_release: Option<Seq<char>>,
    build_metadata: Option<Seq<char>>,
) -> Seq<char> {
    decimal(major) + seq!['.'] + decimal(minor) + seq!['.'] + decimal(patch) + signed_label(
        '-',
        pre_release,
    ) + signed_label('+', build_metadata)
}

/// A label behind its sign, or nothing where there is no label.
pub open spec fn signed_label(sign: char, label: Option<Seq<char>>) -> Seq<char> {
    match label {
        Some(l) => seq![sign] + l,
        None => Seq::empty(),
    }
}

/// The parts of a version are within the grammar: the numbers fit in 64 bits
/// and each label that is present is well formed.
pub open spec fn valid_parts(
    major: nat,
    minor: nat,
    patch: nat,
    pre_release: Option<Seq<char>>,
    build_metadata: Option<Seq<char>>,
) -> bool {
    &&& major <= u64::MAX
    &&& minor <= u64::MAX
    &&& patch <= u64::MAX
    &&& pre_release matches Some(p) ==> is_prerelease_label(p)
    &&& build_metadata matches Some(b) ==> is_build_label(b)
}

/// `t` is the text of a semantic version.
pub open spec fn is_semver(t: Seq<char>) -> bool {
    exists|
        major: nat,
        minor: nat,
        patch: nat,
        pre_release: Option<Seq<char>>,
        build_metadata: Option<Seq<char>>,
    |
        valid_parts(major, minor, patch, pre_release, build_metadata) && t == #[trigger] version_text(
            major,
            minor,
            patch,
            pre_release,
            build_metadata,
        )
}

/// A decimal numeral is a non-empty run of digits.
pub proof fn lemma_decimal_digits(n: nat)
    ensures
        decimal(n).len() > 0,
        all_digits(decimal(n)),
    decreases n,
{
    if n >= 10 {
        lemma_decimal_digits(n / 10);
    }
}

/// Reading a decimal numeral gives the number back.
pub proof fn lemma_decimal_value(n: nat)
    ensures
        decimal_value(decimal(n)) == n,
    decreases n,
{
    if n < 10 {
        assert(decimal(n).drop_last() =~= Seq::<char>::empty());
        assert(decimal_value(decimal(n).drop_last()) == 0);
    } else {
        lemma_decimal_value(n / 10);
        assert(decimal(n).drop_last() =~= decimal(n / 10));
    }
}

/// Two numbers with the same decimal numeral are equal.
pub proof fn lemma_decimal_injective(a: nat, b: nat)
    requires
        decimal(a) == decimal(b),
    ensures
        a == b,
{
    lemma_decimal_value(a);
    lemma_decimal_value(b);
}

/// A text is cut in one way only into a run of characters that meet `p` and a
/// rest that does not begin with one.
pub proof fn lemma_run_unique(
    p: spec_fn(char) -> bool,
    run1: Seq<char>,
    rest1: Seq<char>,
    run2: Seq<char>,
    rest2: Seq<char>,
)
    requires
        run1 + rest1 == run2 + rest2,
        forall|k: int| 0 <= k < run1.len() ==> p(#[trigger] run1[k]),
        forall|k: int| 0 <= k < run2.len() ==> p(#[trigger] run2[k]),
        rest1.len() > 0 ==> !p(rest1[0]),
        rest2.len() > 0 ==> !p(rest2[0]),
    ensures
        run1 == run2,
        rest1 == rest2,
{
    let t = run1 + rest1;
    assert(t.len() == run1.len() + rest1.len());
    assert(t.len() == run2.len() + rest2.len());
    if run1.len() < run2.len() {
        assert(t[run1.len() as int] == rest1[0]);
        assert(t[run1.len() as int] == run2[run1.len() as int]);
        assert(false);
    }
    if run2.len() < run1.len() {
        assert(t[run2.len() as int] == rest2[0]);
        assert(t[run2.len() as int] == run1[run2.len() as int]);
        assert(false);
    }
    assert(run1 =~= t.take(run1.len() as int));
    assert(run2 =~= t.take(run2.len() as int));
    assert(rest1 =~= t.skip(run1.len() as int));
    assert(rest2 =~= t.skip(run2.len() as int));
}

/// The text of a version begins with a digit.
pub proof fn lemma_version_text_starts_with_digit(
    major: nat,
    minor: nat,
    patch: nat,
    pre_release: Option<Seq<char>>,
    build_metadata: Option<Seq<char>>,
)
    ensures
        version_text(major, minor, patch, pre_release, build_metadata).len() > 0,
        is_digit(version_text(major, minor, patch, pre_release, build_metadata)[0]),
{
    lemma_decimal_digits(major);
    assert(version_text(major, minor, patch, pre_release, build_metadata)[0] == decimal(major)[0]);
}

/// A text that does not begin with a digit is no semantic version.
pub proof fn lemma_semver_starts_with_digit(t: Seq<char>)
    requires
        is_semver(t),
    ensures
        t.len() > 0,
        is_digit(t[0]),
{
    let (major, minor, patch, pre_release, build_metadata) = choose|
        major: nat,
        minor: nat,
        patch: nat,
        pre_release: Option<Seq<char>>,
        build_metadata: Option<Seq<char>>,
    |
        valid_parts(major, minor, patch, pre_release, build_metadata) && t == #[trigger] version_text(
            major,
            minor,
            patch,
            pre_release,
            build_metadata,
        );
    lemma_version_text_starts_with_digit(major, minor, patch, pre_release, build_metadata);
}

/// A number and what follows it are read off a text in one way only, where
/// what follows does not begin with a digit.
proof fn lemma_number_unique(a: nat, rest_a: Seq<char>, b: nat, rest_b: Seq<char>)
    requires
        decimal(a) + rest_a == decimal(b) + rest_b,
        rest_a.len() > 0 ==> !is_digit(rest_a[0]),
        rest_b.len() > 0 ==> !is_digit(rest_b[0]),
    ensures
        a == b,
        rest_a == rest_b,
{
    lemma_decimal_digits(a);
    lemma_decimal_digits(b);
    lemma_run_unique(|c: char| is_digit(c), decimal(a), rest_a, decimal(b), rest_b);
    lemma_decimal_injective(a, b);
}

/// The two labels are read off the end of a version's text in one way only.
proof fn lemma_labels_unique(
    pre1: Option<Seq<char>>,
    build1: Option<Seq<char>>,
    pre2: Option<Seq<char>>,
    build2: Option<Seq<char>>,
)
    requires
        pre1 matches Some(p) ==> is_prerelease_label(p),
        pre2 matches Some(p) ==> is_prerelease_label(p),
        build1 matches Some(b) ==> is_build_label(b),
        build2 matches Some(b) ==> is_build_label(b),
        signed_label('-', pre1) + signed_label('+', build1) == signed_label('-', pre2)
            + signed_label('+', build2),
    ensures
        pre1 == pre2,
        build1 == build2,
{
    let b1 = signed_label('+', build1);
    let b2 = signed_label('+', build2);
    let t = signed_label('-', pre1) + b1;
    assert(b1.len() > 0 ==> b1[0] == '+');
    assert(b2.len() > 0 ==> b2[0] == '+');
    match (pre1, pre2) {
        (Some(left), Some(right)) => {
            assert(t.skip(1) =~= left + b1);
            assert(t.skip(1) =~= right + b2);
            lemma_run_unique(|c: char| c != '+', left, b1, right, b2);
        },
        (Some(_), None) => {
            assert(t[0] == '-');
            assert(t =~= b2);
            assert(false);
        },
        (None, Some(_)) => {
            assert(t =~= b1);
            assert((signed_label('-', pre2) + b2)[0] == '-');
            assert(false);
        },
        (None, None) => {
            assert(t =~= b1);
            assert(t =~= b2);
        },
    }
    assert(b1 == b2);
    match (build1, build2) {
        (Some(l1), Some(l2)) => {
            assert(l1 =~= b1.skip(1));
            assert(l2 =~= b2.skip(1));
        },
        (Some(_), None) => {
            assert(b1.len() > 0);
        },
        (None, Some(_)) => {
            assert(b2.len() > 0);
        },
        (None, None) => {},
    }
}

/// Seven texts written one behind the other, bracketed from the right.
proof fn lemma_concat_nested(
    a: Seq<char>,
    b: Seq<char>,
    c: Seq<char>,
    d: Seq<char>,
    e: Seq<char>,
    f: Seq<char>,
    g: Seq<char>,
)
    ensures
        a + b + c + d + e + f + g == a + (b + (c + (d + (e + (f + g))))),
{
    assert(a + b + c + d + e + f + g =~= a + (b + (c + (d + (e + (f + g))))));
}

/// The text of a version as its first number and what follows it, and so on
/// down to the labels.
proof fn lemma_version_text_nested(
    major: nat,
    minor: nat,
    patch: nat,
    pre_release: Option<Seq<char>>,
    build_metadata: Option<Seq<char>>,
)
    ensures
        version_text(major, minor, patch, pre_release, build_metadata) == decimal(major) + (
        seq!['.'] + (decimal(minor) + (seq!['.'] + (decimal(patch) + (signed_label(
            '-',
            pre_release,
        ) + signed_label('+', build_metadata)))))),
{
    lemma_concat_nested(
        decimal(major),
        seq!['.'],
        decimal(minor),
        seq!['.'],
        decimal(patch),
        signed_label('-', pre_release),
        signed_label('+', build_metadata),
    );
}

/// A number, the dot before it and what follows it are read off a text in
/// one way only, where what follows does not begin with a digit.
proof fn lemma_dotted_number_unique(a: nat, rest_a: Seq<char>, b: nat, rest_b: Seq<char>)
    requires
        seq!['.'] + (decimal(a) + rest_a) == seq!['.'] + (decimal(b) + rest_b),
        rest_a.len() > 0 ==> !is_digit(rest_a[0]),
        rest_b.len() > 0 ==> !is_digit(rest_b[0]),
    ensures
        a == b,
        rest_a == rest_b,
{
    let t = seq!['.'] + (decimal(a) + rest_a);
    assert(t.skip(1) =~= decimal(a) + rest_a);
    assert(t.skip(1) =~= decimal(b) + rest_b);
    lemma_number_unique(a, rest_a, b, rest_b);
}

/// Two versions with the same text have the same numbers and the same labels.
pub proof fn lemma_version_text_injective(
    major1: nat,
    minor1: nat,
    patch1: nat,
    pre1: Option<Seq<char>>,
    build1: Option<Seq<char>>,
    major2: nat,
    minor2: nat,
    patch2: nat,
    pre2: Option<Seq<char>>,
    build2: Option<Seq<char>>,
)
    requires
        valid_parts(major1, minor1, patch1, pre1, build1),
        valid_parts(major2, minor2, patch2, pre2, build2),
        version_text(major1, minor1, patch1, pre1, build1) == version_text(
            major2,
            minor2,
            patch2,
            pre2,
            build2,
        ),
    ensures
        major1 == major2,
        minor1 == minor2,
        patch1 == patch2,
        pre1 == pre2,
        build1 == build2,
{
    let dot = seq!['.'];
    let labels1 = signed_label('-', pre1) + signed_label('+', build1);
    let labels2 = signed_label('-', pre2) + signed_label('+', build2);
    let after_minor1 = dot + (decimal(patch1) + labels1);
    let after_minor2 = dot + (decimal(patch2) + labels2);
    let after_major1 = dot + (decimal(minor1) + after_minor1);
    let after_major2 = dot + (decimal(minor2) + after_minor2);
    lemma_version_text_nested(major1, minor1, patch1, pre1, build1);
    lemma_version_text_nested(major2, minor2, patch2, pre2, build2);
    assert(after_major1[0] == '.');
    assert(after_major2[0] == '.');
    lemma_number_unique(major1, after_major1, major2, after_major2);
    assert(after_minor1[0] == '.');
    assert(after_minor2[0] == '.');
    lemma_dotted_number_unique(minor1, after_minor1, minor2, after_minor2);
    assert(labels1.len() > 0 ==> labels1[0] == '-' || labels1[0] == '+');
    assert(labels2.len() > 0 ==> labels2[0] == '-' || labels2[0] == '+');
    lemma_dotted_number_unique(patch1, labels1, patch2, labels2);
    lemma_labels_unique(pre1, build1, pre2, build2);
}

} // verus!
