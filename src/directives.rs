use vstd::prelude::*;

use crate::command::{
    arg, bytes_of, command_line, git_command, git_raw_output, git_run, raw_output, succeeded,
    ErrorModel, Outcome, OutcomeModel, RevisionError,
};
use crate::paths::{
    byte_strings, bytes_to_path, checked_path, is_path, join_path, joined, parent_dir, parent_of,
    strip_newline, without_newline,
};

verus! {

/// The arguments that ask whether the directory lies in a repository.
pub open spec fn probe_args() -> Seq<Seq<u8>> {
    seq![bytes_of("rev-parse"), bytes_of("--git-dir")]
}

/// The arguments that ask for the absolute path of the metadata directory.
pub open spec fn git_dir_args() -> Seq<Seq<u8>> {
    seq![bytes_of("rev-parse"), bytes_of("--absolute-git-dir")]
}

/// The entries of the metadata directory that move with each commit, tag or
/// checkout: the head reference, the index and the references.
pub open spec fn metadata_entries() -> Seq<Seq<u8>> {
    seq![bytes_of("HEAD"), bytes_of("index"), bytes_of("refs/")]
}

/// The directive that has the build run again when `path` changes.
pub open spec fn rerun_line(path: Seq<u8>) -> Seq<u8> {
    bytes_of("cargo:rerun-if-changed=") + path
}

/// The path watched for a source: the source itself where the sources are
/// complete paths (`rooted`), else the source taken from `root`.
pub open spec fn source_path(root: Seq<u8>, source: Seq<u8>, rooted: bool) -> Seq<u8> {
    if rooted {
        source
    } else {
        joined(root, source)
    }
}

/// The directives for a metadata directory printed as `git_dir` (with its
/// line feed) and for `sources`, which are complete paths where `rooted`
/// holds and are otherwise taken from the directory that holds the metadata
/// directory: the metadata entries first, then each source in order.
pub open spec fn rerun_lines(git_dir: Seq<u8>, sources: Seq<Seq<u8>>, rooted: bool) -> Seq<Seq<u8>> {
    let dir = without_newline(git_dir);
    metadata_entries().map_values(|e: Seq<u8>| rerun_line(joined(dir, e)))
        + sources.map_values(|p: Seq<u8>| rerun_line(source_path(parent_of(dir), p, rooted)))
}

/// The directives for the metadata directory that a run of `git` reported,
/// or the failure of that run; where paths are text (`text_paths`), a
/// directory printed as bytes that are not UTF-8 is an encoding error.
pub open spec fn rerun_directives(
    o: OutcomeModel,
    sources: Seq<Seq<u8>>,
    rooted: bool,
    text_paths: bool,
) -> Result<Seq<Seq<u8>>, ErrorModel> {
    match raw_output(git_dir_args(), o) {
        Err(e) => Err(e),
        Ok(g) => if is_path(without_newline(g), text_paths) {
            Ok(rerun_lines(g, sources, rooted))
        } else {
            Err(ErrorModel::Encoding { command: command_line(git_dir_args()) })
        },
    }
}

/// The warning given where the directory lies in no repository.
pub open spec fn not_a_repository_warning() -> Seq<u8> {
    bytes_of("cargo:warning=Not in a git repository; unable to embed git revision")
}

/// The warning given where `git` could not be started.
pub open spec fn no_git_warning() -> Seq<u8> {
    bytes_of("cargo:warning=Failed to invoke `git`; unable to embed git revision: failed to run `")
        + command_line(probe_args()) + bytes_of("`")
}

/// The warning that ends the work after the probe, if any: none where the
/// probe succeeded.
pub open spec fn gate_warning(probe: OutcomeModel) -> Option<Seq<u8>> {
    match probe {
        OutcomeModel::NotLaunched => Some(no_git_warning()),
        OutcomeModel::Exited { .. } => if succeeded(probe) {
            None
        } else {
            Some(not_a_repository_warning())
        },
    }
}

/// The view of a result that carries lines.
pub open spec fn lines_result(r: Result<Vec<Vec<u8>>, RevisionError>) -> Result<
    Seq<Seq<u8>>,
    ErrorModel,
> {
    match r {
        Ok(l) => Ok(byte_strings(l@)),
        Err(e) => Err(e@),
    }
}

/// What the probe decided.
#[derive(Debug)]
pub enum Gate {
    /// `git` works and the directory lies in a repository.
    Proceed,
    /// No revision can be had; the warning says why.
    Unavailable { warning: Vec<u8> },
}

/// The arguments that ask whether the directory lies in a repository.
pub fn probe_arguments() -> (r: Vec<Vec<u8>>)
    ensures
        byte_strings(r@) == probe_args(),
{
    let r = vec![arg("rev-parse"), arg("--git-dir")];
    assert(byte_strings(r@) =~= probe_args());
    r
}

/// The arguments that ask for the absolute path of the metadata directory.
pub fn git_dir_arguments() -> (r: Vec<Vec<u8>>)
    ensures
        byte_strings(r@) == git_dir_args(),
{
    let r = vec![arg("rev-parse"), arg("--absolute-git-dir")];
    assert(byte_strings(r@) =~= git_dir_args());
    r
}

/// Decides from the probe whether a revision can be had at all. A missing
/// `git` and a directory outside any repository are no errors: they end the
/// work with a warning.
pub fn with_valid_git(probe: &Outcome) -> (r: Gate)
    ensures
        match gate_warning(probe@) {
            None => r is Proceed,
            Some(w) => r matches Gate::Unavailable { warning } && warning@ == w,
        },
{
    match git_run(&probe_arguments(), probe) {
        Ok(true) => Gate::Proceed,
        Ok(false) => Gate::Unavailable {
            warning: arg("cargo:warning=Not in a git repository; unable to embed git revision"),
        },
        Err(e) => {
            let mut w = arg("cargo:warning=Failed to invoke `git`; unable to embed git revision: failed to run `");
            let mut command = match e {
                RevisionError::Launch { command } => command,
                RevisionError::Command { command, .. } => command,
                RevisionError::Encoding { command } => command,
                RevisionError::Malformed { command } => command,
            };
            w.append(&mut command);
            let mut close = arg("`");
            w.append(&mut close);
            Gate::Unavailable { warning: w }
        },
    }
}

/// The directive that has the build run again when `path` changes.
pub fn rerun_directive(path: &[u8]) -> (r: Vec<u8>)
    ensures
        r@ == rerun_line(path@),
{
    let mut r = arg("cargo:rerun-if-changed=");
    let mut p = vstd::slice::slice_to_vec(path);
    r.append(&mut p);
    r
}

/// The directives that have the build run again when the repository moves
/// or a source changes, from the run that reported the metadata directory.
/// `sources` are complete paths where `rooted` holds; `text_paths` says
/// whether paths are text on this platform.
pub fn print_rerun_if_changed(
    git_dir: Outcome,
    sources: &Vec<Vec<u8>>,
    rooted: bool,
    text_paths: bool,
) -> (r: Result<Vec<Vec<u8>>, RevisionError>)
    ensures
        lines_result(r) == rerun_directives(git_dir@, byte_strings(sources@), rooted, text_paths),
{
    let args = git_dir_arguments();
    let out = git_raw_output(&args, git_dir);
    let printed = match out {
        Err(e) => return Err(e),
        Ok(b) => b,
    };
    let dir = match checked_path(strip_newline(printed.as_slice()).as_slice(), text_paths) {
        Some(p) => p,
        None => return Err(RevisionError::Encoding { command: git_command(&args) }),
    };
    let ghost d = dir@;
    let entries = vec![arg("HEAD"), arg("index"), arg("refs/")];
    let ghost names = byte_strings(entries@);
    assert(names =~= metadata_entries());
    let mut lines: Vec<Vec<u8>> = Vec::new();
    let mut i: usize = 0;
    while i < entries.len()
        invariant
            i <= entries@.len(),
            names == byte_strings(entries@),
            dir@ == d,
            byte_strings(lines@) =~= names.subrange(0, i as int).map_values(
                |e: Seq<u8>| rerun_line(joined(d, e)),
            ),
        decreases entries@.len() - i,
    {
        let path = join_path(dir.as_slice(), entries[i].as_slice());
        let line = rerun_directive(path.as_slice());
        let ghost before = byte_strings(lines@);
        lines.push(line);
        assert(byte_strings(lines@) =~= before.push(line@));
        i = i + 1;
    }
    assert(names.subrange(0, 3) =~= names);
    let ghost head = byte_strings(lines@);
    let ghost all = byte_strings(sources@);
    let root = parent_dir(dir.as_slice());
    let mut j: usize = 0;
    while j < sources.len()
        invariant
            j <= sources@.len(),
            all == byte_strings(sources@),
            root@ == parent_of(d),
            byte_strings(lines@) =~= head + all.subrange(0, j as int).map_values(
                |p: Seq<u8>| rerun_line(source_path(parent_of(d), p, rooted)),
            ),
        decreases sources@.len() - j,
    {
        let path = if rooted {
            bytes_to_path(sources[j].as_slice())
        } else {
            join_path(root.as_slice(), sources[j].as_slice())
        };
        let line = rerun_directive(path.as_slice());
        let ghost before = byte_strings(lines@);
        lines.push(line);
        assert(byte_strings(lines@) =~= before.push(line@));
        j = j + 1;
    }
    assert(all.subrange(0, j as int) =~= all);
    Ok(lines)
}

} // verus!
