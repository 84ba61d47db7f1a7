//! Revision identifiers for builds: the tag at `HEAD` or the short commit hash,
//! marked when the working tree carries local changes, together with the
//! directives that make a build tool run again when the repository moves.
//!
//! The library decides; the caller runs `git`. A [`Resolver`] names each
//! invocation it needs and is handed back what that invocation produced.

pub mod command;
pub mod directives;
pub mod laws;
pub mod paths;
pub mod resolver;
pub mod text;

pub use command::{git_command, git_output, git_raw_output, git_run, Outcome, RevisionError, GIT};
pub use directives::{print_rerun_if_changed, with_valid_git, Gate};
pub use paths::{bytes_to_path, list_tracked_objects};
pub use resolver::{revision_bare_impl, revision_impl, Action, Invocation, Resolver, Sources, Step};
pub use text::trim_text;
