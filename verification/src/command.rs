//! The whole command, from the parsed command line to the line that is
//! printed.

use crate::args::{Args, ArgsView, SubCommand, SubCommandView};
use crate::error::{AppError, AppErrorView};
use crate::grammar::{is_build_label, is_prerelease_label};
use crate::semver_api::MAX_TEXT_LEN;
use crate::source::{resolve, resolve_source, Source, SourceView};
use crate::text::read_view;
use crate::version::{version_from, Version, VersionView};
use vstd::prelude::*;

verus! {

/// What a subcommand makes of the version `v`.
///
/// A bump fails with [`AppError::Overflow`] where the number to raise is the
/// largest that 64 bits hold. A label is put in place where it is well formed
/// and of at most [`MAX_TEXT_LEN`] characters, and else refused.
pub open spec fn apply(sub: SubCommandView, v: VersionView) -> Result<VersionView, AppErrorView> {
    match sub {
        SubCommandView::Patch { .. } => if v.patch < u64::MAX {
            Ok(v.bump_patch())
        } else {
            Err(AppErrorView::Overflow)
        },
        SubCommandView::Minor { .. } => if v.minor < u64::MAX {
            Ok(v.bump_minor())
        } else {
            Err(AppErrorView::Overflow)
        },
        SubCommandView::Major { .. } => if v.major < u64::MAX {
            Ok(v.bump_major())
        } else {
            Err(AppErrorView::Overflow)
        },
        SubCommandView::Pre { pre, .. } => if is_prerelease_label(pre) && pre.len()
            <= MAX_TEXT_LEN {
            Ok(v.with_pre_release(pre))
        } else {
            Err(AppErrorView::InvalidLabel(pre))
        },
        SubCommandView::Build { build, .. } => if is_build_label(build) && build.len()
            <= MAX_TEXT_LEN {
            Ok(v.with_build(build))
        } else {
            Err(AppErrorView::InvalidLabel(build))
        },
    }
}

/// The line that the command prints, or the error it ends with: the version
/// is read as [`version_from`] says, the subcommand is applied to it, and the
/// result is written out.
pub open spec fn output(
    args: ArgsView,
    stdin_is_piped: bool,
    contents: Result<Seq<char>, Seq<char>>,
) -> Result<Seq<char>, AppErrorView> {
    match version_from(args.sub.file(), args.sub.ver(), stdin_is_piped, contents) {
        Err(e) => Err(e),
        Ok(v) => match apply(args.sub, v) {
            Err(e) => Err(e),
            Ok(w) => Ok(w.text()),
        },
    }
}

impl Args {
    /// The source that the caller is to read before it calls [`run`].
    pub fn source(&self, stdin_is_piped: bool) -> (r: Result<Source, AppError>)
        ensures
            match r {
                Ok(source) => resolve(self@.sub.file(), self@.sub.ver(), stdin_is_piped) == Ok::<
                    SourceView,
                    AppErrorView,
                >(source@),
                Err(e) => resolve(self@.sub.file(), self@.sub.ver(), stdin_is_piped) == Err::<
                    SourceView,
                    AppErrorView,
                >(e@),
            },
    {
        resolve_source(self.sub.file(), self.sub.ver(), stdin_is_piped)
    }
}

/// Runs the command and returns the line to print.
///
/// `contents` is what the caller read from the source that [`Args::source`]
/// names, or the cause for which it could not be read. It is not looked at
/// where that source is the argument, or where there is no source.
pub fn run(args: Args, stdin_is_piped: bool, contents: Result<String, String>) -> (r: Result<
    String,
    AppError,
>)
    ensures
        match r {
            Ok(line) => output(args@, stdin_is_piped, read_view(contents)) == Ok::<
                Seq<char>,
                AppErrorView,
            >(line@),
            Err(e) => output(args@, stdin_is_piped, read_view(contents)) == Err::<
                Seq<char>,
                AppErrorView,
            >(e@),
        },
{
    let version = match args.sub {
        SubCommand::Patch { file, ver } => {
            let ver = Version::try_from((file, ver), stdin_is_piped, &contents)?;
            if ver.patch() == u64::MAX {
                return Err(AppError::Overflow);
            }
            ver.bump_patch()
        },
        SubCommand::Minor { file, ver } => {
            let ver = Version::try_from((file, ver), stdin_is_piped, &contents)?;
            if ver.minor() == u64::MAX {
                return Err(AppError::Overflow);
            }
            ver.bump_minor()
        },
        SubCommand::Major { file, ver } => {
            let ver = Version::try_from((file, ver), stdin_is_piped, &contents)?;
            if ver.major() == u64::MAX {
                return Err(AppError::Overflow);
            }
            ver.bump_major()
        },
        SubCommand::Pre { file, pre, ver } => {
            let ver = Version::try_from((file, ver), stdin_is_piped, &contents)?;
            ver.update_pre_release(pre.as_str())?
        },
        SubCommand::Build { file, build, ver } => {
            let ver = Version::try_from((file, ver), stdin_is_piped, &contents)?;
            ver.update_build(build.as_str())?
        },
    };
    Ok(version.to_string())
}

} // verus!
