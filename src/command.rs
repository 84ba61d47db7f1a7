use vstd::prelude::*;
use vstd::slice::slice_to_vec;
use vstd::utf8::{decode_utf8, encode_utf8, valid_utf8};

use crate::text::decode_text;

verus! {

/// The version-control executable, looked up on the search path.
pub const GIT: &'static str = "git";

/// The byte that separates the words of a command line.
pub const SPACE: u8 = 0x20;

/// What became of one run of `git`.
#[derive(Debug)]
pub enum Outcome {
    /// The process could not be started.
    NotLaunched,
    /// The process ran to its end: the exit code where it has one (a process
    /// ended by a signal has none), and what it wrote to standard output
    /// (nothing where that was discarded).
    Exited { code: Option<i32>, stdout: Vec<u8> },
}

/// An [`Outcome`] over mathematical values.
pub enum OutcomeModel {
    NotLaunched,
    Exited { code: Option<i32>, stdout: Seq<u8> },
}

impl View for Outcome {
    type V = OutcomeModel;

    open spec fn view(&self) -> OutcomeModel {
        match self {
            Outcome::NotLaunched => OutcomeModel::NotLaunched,
            Outcome::Exited { code, stdout } => OutcomeModel::Exited { code: *code, stdout: stdout@ },
        }
    }
}

impl Outcome {
    /// Copies the outcome.
    pub fn duplicate(&self) -> (r: Outcome)
        ensures
            r@ == self@,
    {
        match self {
            Outcome::NotLaunched => Outcome::NotLaunched,
            Outcome::Exited { code, stdout } => Outcome::Exited {
                code: *code,
                stdout: slice_to_vec(stdout.as_slice()),
            },
        }
    }
}

/// A failure once the repository has been found; each names the command line
/// that failed.
#[derive(Debug)]
pub enum RevisionError {
    /// `git` could not be started.
    Launch { command: Vec<u8> },
    /// `git` ended without success, with its exit code where it has one.
    Command { command: Vec<u8>, code: Option<i32> },
    /// `git` printed text that is not UTF-8.
    Encoding { command: Vec<u8> },
    /// `git` succeeded but printed nothing but white space where a revision
    /// was due.
    Malformed { command: Vec<u8> },
}

/// A [`RevisionError`] over mathematical values.
pub enum ErrorModel {
    Launch { command: Seq<u8> },
    Command { command: Seq<u8>, code: Option<i32> },
    Encoding { command: Seq<u8> },
    Malformed { command: Seq<u8> },
}

impl View for RevisionError {
    type V = ErrorModel;

    open spec fn view(&self) -> ErrorModel {
        match self {
            RevisionError::Launch { command } => ErrorModel::Launch { command: command@ },
            RevisionError::Command { command, code } => ErrorModel::Command {
                command: command@,
                code: *code,
            },
            RevisionError::Encoding { command } => ErrorModel::Encoding { command: command@ },
            RevisionError::Malformed { command } => ErrorModel::Malformed { command: command@ },
        }
    }
}

/// The bytes of a text.
pub open spec fn bytes_of(s: &str) -> Seq<u8> {
    encode_utf8(s@)
}

/// The command line of `git` run with `args`: the executable's name and each
/// argument, one space before each.
pub open spec fn command_line(args: Seq<Seq<u8>>) -> Seq<u8>
    decreases args.len(),
{
    if args.len() == 0 {
        bytes_of(GIT)
    } else {
        command_line(args.drop_last()).push(SPACE) + args.last()
    }
}

/// Whether a run ended in success: an exit code of zero.
pub open spec fn succeeded(o: OutcomeModel) -> bool {
    o matches OutcomeModel::Exited { code: Some(0i32), .. }
}

/// What a run of `git` with `args` printed, or the failure it amounts to.
pub open spec fn raw_output(args: Seq<Seq<u8>>, o: OutcomeModel) -> Result<Seq<u8>, ErrorModel> {
    match o {
        OutcomeModel::NotLaunched => Err(ErrorModel::Launch { command: command_line(args) }),
        OutcomeModel::Exited { code, stdout } => if code == Some(0i32) {
            Ok(stdout)
        } else {
            Err(ErrorModel::Command { command: command_line(args), code })
        },
    }
}

/// What a run of `git` with `args` printed, as text, or the failure it
/// amounts to.
pub open spec fn text_output(args: Seq<Seq<u8>>, o: OutcomeModel) -> Result<Seq<char>, ErrorModel> {
    match raw_output(args, o) {
        Err(e) => Err(e),
        Ok(b) => if valid_utf8(b) {
            Ok(decode_utf8(b))
        } else {
            Err(ErrorModel::Encoding { command: command_line(args) })
        },
    }
}

/// Whether a run of `git` whose output was discarded succeeded, or the
/// failure to start it.
pub open spec fn run_status(args: Seq<Seq<u8>>, o: OutcomeModel) -> Result<bool, ErrorModel> {
    match o {
        OutcomeModel::NotLaunched => Err(ErrorModel::Launch { command: command_line(args) }),
        OutcomeModel::Exited { .. } => Ok(succeeded(o)),
    }
}

/// The view of a result that carries text.
pub open spec fn text_result(r: Result<String, RevisionError>) -> Result<Seq<char>, ErrorModel> {
    match r {
        Ok(s) => Ok(s@),
        Err(e) => Err(e@),
    }
}

/// The view of a result that carries bytes.
pub open spec fn bytes_result(r: Result<Vec<u8>, RevisionError>) -> Result<Seq<u8>, ErrorModel> {
    match r {
        Ok(b) => Ok(b@),
        Err(e) => Err(e@),
    }
}

/// The bytes of a text, as one argument.
pub fn arg(s: &str) -> (r: Vec<u8>)
    ensures
        r@ == bytes_of(s),
{
    slice_to_vec(s.as_bytes())
}

/// The command line of `git` run with `args`, for diagnostics.
pub fn git_command(args: &Vec<Vec<u8>>) -> (r: Vec<u8>)
    ensures
        r@ == command_line(crate::paths::byte_strings(args@)),
{
    let ghost all = crate::paths::byte_strings(args@);
    let mut r = arg(GIT);
    let mut i: usize = 0;
    while i < args.len()
        invariant
            i <= args@.len(),
            all == crate::paths::byte_strings(args@),
            r@ == command_line(all.subrange(0, i as int)),
        decreases args@.len() - i,
    {
        assert(all.subrange(0, i as int) =~= all.subrange(0, i + 1).drop_last());
        r.push(SPACE);
        let mut word = slice_to_vec(args[i].as_slice());
        r.append(&mut word);
        i = i + 1;
    }
    assert(all.subrange(0, i as int) =~= all);
    r
}

/// The output of a run of `git` with `args`; a run that could not start or
/// did not succeed is an error that names the command line.
pub fn git_raw_output(args: &Vec<Vec<u8>>, outcome: Outcome) -> (r: Result<Vec<u8>, RevisionError>)
    ensures
        bytes_result(r) == raw_output(crate::paths::byte_strings(args@), outcome@),
{
    match outcome {
        Outcome::NotLaunched => Err(RevisionError::Launch { command: git_command(args) }),
        Outcome::Exited { code, stdout } => {
            match code {
                Some(0i32) => Ok(stdout),
                _ => Err(RevisionError::Command { command: git_command(args), code }),
            }
        },
    }
}

/// The output of a run of `git` with `args`, as text; output that is not
/// UTF-8 is an error too.
pub fn git_output(args: &Vec<Vec<u8>>, outcome: Outcome) -> (r: Result<String, RevisionError>)
    ensures
        text_result(r) == text_output(crate::paths::byte_strings(args@), outcome@),
{
    let raw = git_raw_output(args, outcome);
    match raw {
        Err(e) => Err(e),
        Ok(bytes) => match decode_text(bytes) {
            Some(s) => Ok(s),
            None => Err(RevisionError::Encoding { command: git_command(args) }),
        },
    }
}

/// Whether a run of `git` with `args` succeeded; only a run that could not
/// start is an error.
pub fn git_run(args: &Vec<Vec<u8>>, outcome: &Outcome) -> (r: Result<bool, RevisionError>)
    ensures
        match (r, run_status(crate::paths::byte_strings(args@), outcome@)) {
            (Ok(a), Ok(b)) => a == b,
            (Err(e), Err(f)) => e@ == f,
            _ => false,
        },
{
    match outcome {
        Outcome::NotLaunched => Err(RevisionError::Launch { command: git_command(args) }),
        Outcome::Exited { code, .. } => Ok(
            match code {
                Some(0i32) => true,
                _ => false,
            },
        ),
    }
}

} // verus!
