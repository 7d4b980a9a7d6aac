//! The command line as values: one subcommand with its options.

use crate::text::opt_view;
use vstd::prelude::*;

verus! {

/// The parsed command line.
#[derive(Debug, Clone, PartialEq, Eq)]
pub struct Args {
    pub sub: SubCommand,
}

/// What to do to the version, and where the version is named: `file` is the
/// file option, `ver` the version argument.
#[derive(Debug, Clone, PartialEq, Eq)]
pub enum SubCommand {
    /// Increment patch version
    Patch { file: Option<String>, ver: Option<String> },
    /// Increment minor version
    Minor { file: Option<String>, ver: Option<String> },
    /// Increment major version
    Major { file: Option<String>, ver: Option<String> },
    /// Replace pre-release version
    Pre { file: Option<String>, pre: String, ver: Option<String> },
    /// Replace build metadata
    Build { file: Option<String>, build: String, ver: Option<String> },
}

/// A [`SubCommand`] with its texts as sequences of characters.
pub enum SubCommandView {
    Patch { file: Option<Seq<char>>, ver: Option<Seq<char>> },
    Minor { file: Option<Seq<char>>, ver: Option<Seq<char>> },
    Major { file: Option<Seq<char>>, ver: Option<Seq<char>> },
    Pre { file: Option<Seq<char>>, pre: Seq<char>, ver: Option<Seq<char>> },
    Build { file: Option<Seq<char>>, build: Seq<char>, ver: Option<Seq<char>> },
}

/// [`Args`] with its texts as sequences of characters.
pub struct ArgsView {
    pub sub: SubCommandView,
}

impl SubCommandView {
    /// The file option.
    pub open spec fn file(self) -> Option<Seq<char>> {
        match self {
            SubCommandView::Patch { file, .. } => file,
            SubCommandView::Minor { file, .. } => file,
            SubCommandView::Major { file, .. } => file,
            SubCommandView::Pre { file, .. } => file,
            SubCommandView::Build { file, .. } => file,
        }
    }

    /// The version argument.
    pub open spec fn ver(self) -> Option<Seq<char>> {
        match self {
            SubCommandView::Patch { ver, .. } => ver,
            SubCommandView::Minor { ver, .. } => ver,
            SubCommandView::Major { ver, .. } => ver,
            SubCommandView::Pre { ver, .. } => ver,
            SubCommandView::Build { ver, .. } => ver,
        }
    }
}

impl View for SubCommand {
    type V = SubCommandView;

    open spec fn view(&self) -> SubCommandView {
        match self {
            SubCommand::Patch { file, ver } => SubCommandView::Patch {
                file: opt_view(*file),
                ver: opt_view(*ver),
            },
            SubCommand::Minor { file, ver } => SubCommandView::Minor {
                file: opt_view(*file),
                ver: opt_view(*ver),
            },
            SubCommand::Major { file, ver } => SubCommandView::Major {
                file: opt_view(*file),
                ver: opt_view(*ver),
            },
            SubCommand::Pre { file, pre, ver } => SubCommandView::Pre {
                file: opt_view(*file),
                pre: pre@,
                ver: opt_view(*ver),
            },
            SubCommand::Build { file, build, ver } => SubCommandView::Build {
                file: opt_view(*file),
                build: build@,
                ver: opt_view(*ver),
            },
        }
    }
}

impl View for Args {
    type V = ArgsView;

    open spec fn view(&self) -> ArgsView {
        ArgsView { sub: self.sub@ }
    }
}

impl SubCommand {
    /// The file option.
    pub fn file(&self) -> (r: &Option<String>)
        ensures
            opt_view(*r) == self@.file(),
    {
        match self {
            SubCommand::Patch { file, .. } => file,
            SubCommand::Minor { file, .. } => file,
            SubCommand::Major { file, .. } => file,
            SubCommand::Pre { file, .. } => file,
            SubCommand::Build { file, .. } => file,
        }
    }

    /// The version argument.
    pub fn ver(&self) -> (r: &Option<String>)
        ensures
            opt_view(*r) == self@.ver(),
    {
        match self {
            SubCommand::Patch { ver, .. } => ver,
            SubCommand::Minor { ver, .. } => ver,
            SubCommand::Major { ver, .. } => ver,
            SubCommand::Pre { ver, .. } => ver,
            SubCommand::Build { ver, .. } => ver,
        }
    }
}

} // verus!
