//! The two uses of `git`: asking for the current branch, and committing. Running
//! the subprocess is the caller's part; what to run and what to make of how it
//! ended is decided here.

use vstd::prelude::*;
use vstd::string::*;
use crate::error::{AppError, GitError};
use crate::text::{from_utf8_lossy, trim, trimmed_of, utf8_lossy_of};

verus! {

/// How a subprocess ended: its exit code (`None` when a signal ended it) and what
/// it wrote to its standard output.
#[derive(Debug, Clone, PartialEq, Eq)]
pub struct GitOutput {
    pub code: Option<i32>,
    pub stdout: Vec<u8>,
}

/// The `git` command line.
#[derive(Debug, Clone, Copy, PartialEq, Eq)]
pub struct GitOperations;

/// The arguments that ask `git` for the name of the current branch.
pub open spec fn branch_args() -> Seq<Seq<char>> {
    seq!["rev-parse"@, "--abbrev-ref"@, "HEAD"@]
}

/// The arguments that make `git` commit with `message`.
pub open spec fn commit_args(message: Seq<char>) -> Seq<Seq<char>> {
    seq!["commit"@, "-m"@, message]
}

/// A subprocess succeeded when it ended by itself with exit code 0.
pub open spec fn succeeded(code: Option<i32>) -> bool {
    code == Some(0i32)
}

/// The branch name in what `git rev-parse` wrote: the text without the white
/// space around it, bytes that are not UTF-8 read leniently.
pub open spec fn branch_in(stdout: Seq<u8>) -> Seq<char> {
    trimmed_of(utf8_lossy_of(stdout))
}

/// What asking for the current branch comes to, given how the subprocess ended.
pub open spec fn current_branch(ran: Result<GitOutput, String>) -> Result<Seq<char>, AppError> {
    match ran {
        Err(why) => Err(AppError::Git(GitError::Spawn(why))),
        Ok(output) => if succeeded(output.code) {
            Ok(branch_in(output.stdout@))
        } else {
            Err(AppError::Git(GitError::BranchFailed(output.code)))
        },
    }
}

/// What committing comes to, given how the subprocess ended.
pub open spec fn commit_result(ran: Result<Option<i32>, String>) -> Result<(), AppError> {
    match ran {
        Err(why) => Err(AppError::Git(GitError::Spawn(why))),
        Ok(code) => if succeeded(code) {
            Ok(())
        } else {
            Err(AppError::Git(GitError::CommitFailed(code)))
        },
    }
}

impl GitOperations {
    pub fn new() -> (git: GitOperations) {
        GitOperations
    }

    /// The arguments for `git` that print the current branch.
    pub fn branch_command(&self) -> (args: Vec<String>)
        ensures
            args.deep_view() == branch_args(),
    {
        let mut args: Vec<String> = Vec::new();
        args.push(String::from_str("rev-parse"));
        args.push(String::from_str("--abbrev-ref"));
        args.push(String::from_str("HEAD"));
        assert(args.deep_view() =~= branch_args());
        args
    }

    /// The arguments for `git` that commit with `message`.
    pub fn commit_command(&self, message: &str) -> (args: Vec<String>)
        ensures
            args.deep_view() == commit_args(message@),
    {
        let mut args: Vec<String> = Vec::new();
        args.push(String::from_str("commit"));
        args.push(String::from_str("-m"));
        args.push(String::from_str(message));
        assert(args.deep_view() =~= commit_args(message@));
        args
    }

    /// The current branch, from how `git rev-parse --abbrev-ref HEAD` ended.
    ///
    /// `ran` is `Err` with the reason when the subprocess could not be started.
    pub fn get_current_branch(&self, ran: Result<GitOutput, String>) -> (r: Result<String, AppError>)
        ensures
            match current_branch(ran) {
                Ok(name) => r matches Ok(branch) && branch@ == name,
                Err(e) => r == Err::<String, AppError>(e),
            },
    {
        match ran {
            Err(why) => Err(AppError::Git(GitError::Spawn(why))),
            Ok(output) => match output.code {
                Some(0) => {
                    let text = from_utf8_lossy(output.stdout.as_slice());
                    Ok(trim(text.as_str()))
                },
                code => Err(AppError::Git(GitError::BranchFailed(code))),
            },
        }
    }

    /// Whether the commit went through, from how `git commit` ended.
    ///
    /// `ran` is `Err` with the reason when the subprocess could not be started.
    pub fn commit(&self, ran: Result<Option<i32>, String>) -> (r: Result<(), AppError>)
        ensures
            r == commit_result(ran),
    {
        match ran {
            Err(why) => Err(AppError::Git(GitError::Spawn(why))),
            Ok(Some(0)) => Ok(()),
            Ok(code) => Err(AppError::Git(GitError::CommitFailed(code))),
        }
    }
}

} // verus!
