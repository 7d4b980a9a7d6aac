//! What can go wrong between the command line and the printed version.

use vstd::prelude::*;
use vstd::string::StringExecFns;

verus! {

/// Why no version could be printed.
#[derive(Debug, Clone, PartialEq, Eq)]
pub enum AppError {
    /// No part of the text reads as a semantic version. Holds the text.
    NotASemanticVersion(String),
    /// The text is no pre-release or build label. Holds the text.
    InvalidLabel(String),
    /// A version was named both by an argument and by a file.
    ConflictingSource,
    /// No version was named, and none is piped in.
    NoSource,
    /// The file or the standard input could not be read. Holds the cause.
    SourceUnreadable(String),
    /// The number to bump is the largest that 64 bits hold.
    Overflow,
}

/// An [`AppError`] with its texts as sequences of characters.
pub enum AppErrorView {
    NotASemanticVersion(Seq<char>),
    InvalidLabel(Seq<char>),
    ConflictingSource,
    NoSource,
    SourceUnreadable(Seq<char>),
    Overflow,
}

impl AppErrorView {
    /// The line that tells the user of the error.
    pub open spec fn message(self) -> Seq<char> {
        match self {
            AppErrorView::NotASemanticVersion(text) => "Can't find semver format. value: "@ + text,
            AppErrorView::InvalidLabel(text) => "Invalid pre-release or build label. value: "@ + text,
            AppErrorView::ConflictingSource => "Invalid argument, specify either ver args or file option"@,
            AppErrorView::NoSource => "Invalid argument"@,
            AppErrorView::SourceUnreadable(cause) => cause,
            AppErrorView::Overflow => "Version number is too large to bump"@,
        }
    }
}

impl View for AppError {
    type V = AppErrorView;

    open spec fn view(&self) -> AppErrorView {
        match self {
            AppError::NotASemanticVersion(text) => AppErrorView::NotASemanticVersion(text@),
            AppError::InvalidLabel(text) => AppErrorView::InvalidLabel(text@),
            AppError::ConflictingSource => AppErrorView::ConflictingSource,
            AppError::NoSource => AppErrorView::NoSource,
            AppError::SourceUnreadable(cause) => AppErrorView::SourceUnreadable(cause@),
            AppError::Overflow => AppErrorView::Overflow,
        }
    }
}

impl AppError {
    /// The line that tells the user of the error.
    pub fn to_string(&self) -> (r: String)
        ensures
            r@ == self@.message(),
    {
        match self {
            AppError::NotASemanticVersion(text) => String::from_str(
                "Can't find semver format. value: ",
            ).concat(text.as_str()),
            AppError::InvalidLabel(text) => String::from_str(
                "Invalid pre-release or build label. value: ",
            ).concat(text.as_str()),
            AppError::ConflictingSource => String::from_str(
                "Invalid argument, specify either ver args or file option",
            ),
            AppError::NoSource => String::from_str("Invalid argument"),
            AppError::SourceUnreadable(cause) => cause.clone(),
            AppError::Overflow => String::from_str("Version number is too large to bump"),
        }
    }
}

} // verus!
