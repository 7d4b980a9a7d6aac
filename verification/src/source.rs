//! Where the text of the version comes from.
//!
//! Three things name a source: the file option, the version argument, and
//! whether something is piped into the standard input. [`resolve_source`]
//! picks the one source they stand for, or says why they stand for none. The
//! caller then reads that source, and [`source_text`] turns what was read into
//! the text that is parsed.

use crate::error::{AppError, AppErrorView};
use crate::text::{opt_view, read_view, trim_end, trimmed};
use vstd::prelude::*;
use vstd::string::{StrSliceExecFns, StringExecFns};

verus! {

/// The one place the text of the version is taken from.
#[derive(Debug, Clone, PartialEq, Eq)]
pub enum Source {
    /// The version argument holds the text.
    Argument(String),
    /// The file of this path holds the text.
    File(String),
    /// The standard input holds the text.
    Stdin,
}

/// A [`Source`] with its texts as sequences of characters.
pub enum SourceView {
    Argument(Seq<char>),
    File(Seq<char>),
    Stdin,
}

impl View for Source {
    type V = SourceView;

    open spec fn view(&self) -> SourceView {
        match self {
            Source::Argument(text) => SourceView::Argument(text@),
            Source::File(path) => SourceView::File(path@),
            Source::Stdin => SourceView::Stdin,
        }
    }
}

/// The source that a file option, a version argument and a piped standard
/// input stand for.
///
/// The argument `-` means the standard input, and so does a piped input where
/// neither a file nor an argument is given. Any other argument is the text
/// itself. A file is read where it is given alone. A file and an argument
/// together name no source, and neither does nothing at all.
pub open spec fn resolve(
    file: Option<Seq<char>>,
    ver: Option<Seq<char>>,
    stdin_is_piped: bool,
) -> Result<SourceView, AppErrorView> {
    match (file, ver) {
        (None, Some(text)) => if text == seq!['-'] {
            Ok(SourceView::Stdin)
        } else {
            Ok(SourceView::Argument(text))
        },
        (None, None) => if stdin_is_piped {
            Ok(SourceView::Stdin)
        } else {
            Err(AppErrorView::NoSource)
        },
        (Some(path), None) => Ok(SourceView::File(path)),
        (Some(_), Some(_)) => Err(AppErrorView::ConflictingSource),
    }
}

/// The text to parse, from what reading the source gave: the argument as it
/// is, a file or the standard input without the white space at the end. A
/// read that failed gives [`AppError::SourceUnreadable`] with its cause.
pub open spec fn text_of(source: SourceView, contents: Result<Seq<char>, Seq<char>>) -> Result<
    Seq<char>,
    AppErrorView,
> {
    match source {
        SourceView::Argument(text) => Ok(text),
        _ => match contents {
            Ok(read) => Ok(trimmed(read)),
            Err(cause) => Err(AppErrorView::SourceUnreadable(cause)),
        },
    }
}

/// Tells whether `s` is the one character `-`.
fn is_hyphen(s: &str) -> (r: bool)
    ensures
        r == (s@ == seq!['-']),
{
    if s.unicode_len() == 1 {
        let c = s.get_char(0);
        assert(c == '-' ==> s@ =~= seq!['-']);
        c == '-'
    } else {
        false
    }
}

/// Picks the source that `file`, `ver` and `stdin_is_piped` stand for.
pub fn resolve_source(file: &Option<String>, ver: &Option<String>, stdin_is_piped: bool) -> (r:
    Result<Source, AppError>)
    ensures
        match r {
            Ok(source) => resolve(opt_view(*file), opt_view(*ver), stdin_is_piped) == Ok::<
                SourceView,
                AppErrorView,
            >(source@),
            Err(e) => resolve(opt_view(*file), opt_view(*ver), stdin_is_piped) == Err::<
                SourceView,
                AppErrorView,
            >(e@),
        },
{
    match (file, ver) {
        (None, Some(text)) => {
            if is_hyphen(text.as_str()) {
                Ok(Source::Stdin)
            } else {
                Ok(Source::Argument(text.clone()))
            }
        },
        (None, None) => {
            if stdin_is_piped {
                Ok(Source::Stdin)
            } else {
                Err(AppError::NoSource)
            }
        },
        (Some(path), None) => Ok(Source::File(path.clone())),
        (Some(_), Some(_)) => Err(AppError::ConflictingSource),
    }
}

/// The text to parse, from `contents`: what reading `source` gave, or the
/// cause for which it could not be read. `contents` is not looked at where
/// the source is the argument.
pub fn source_text(source: &Source, contents: &Result<String, String>) -> (r: Result<
    String,
    AppError,
>)
    ensures
        match r {
            Ok(text) => text_of(source@, read_view(*contents)) == Ok::<Seq<char>, AppErrorView>(
                text@,
            ),
            Err(e) => text_of(source@, read_view(*contents)) == Err::<Seq<char>, AppErrorView>(e@),
        },
{
    match source {
        Source::Argument(text) => Ok(text.clone()),
        _ => match contents {
            Ok(read) => Ok(String::from_str(trim_end(read.as_str()))),
            Err(cause) => Err(AppError::SourceUnreadable(cause.clone())),
        },
    }
}

} // verus!
