use vstd::prelude::*;

use crate::command::{
    arg, bytes_of, command_line, git_command, git_output, git_raw_output, raw_output, text_output, text_result,
    ErrorModel, Outcome, OutcomeModel, RevisionError,
};
use crate::directives::{
    gate_warning, git_dir_args, git_dir_arguments, print_rerun_if_changed,
    probe_args, probe_arguments, rerun_directives, with_valid_git, Gate,
};
use crate::paths::{
    byte_strings, checked_path, is_path, list_tracked_objects, strip_newline, tracked_paths,
    without_newline,
};
use crate::text::{lemma_trimmed_idempotent, trim_text, trimmed};

verus! {

/// The arguments that ask for the top of the working tree.
pub open spec fn top_level_args() -> Seq<Seq<u8>> {
    seq![bytes_of("rev-parse"), bytes_of("--show-toplevel")]
}

/// The arguments that list the tracked files under `top`, NUL-separated.
/// `top` stands as an argument of its own after `-C`, so that no path is
/// ever read as an option.
pub open spec fn listing_args(top: Seq<u8>) -> Seq<Seq<u8>> {
    seq![bytes_of("-C"), top, bytes_of("ls-files"), bytes_of("--full-name"), bytes_of("-z")]
}

/// The arguments that ask for a tag that names `HEAD` exactly.
pub open spec fn describe_args() -> Seq<Seq<u8>> {
    seq![bytes_of("describe"), bytes_of("--exact-match"), bytes_of("--tags"), bytes_of("HEAD")]
}

/// The arguments that ask for the short hash of `HEAD`.
pub open spec fn short_hash_args() -> Seq<Seq<u8>> {
    seq![bytes_of("rev-parse"), bytes_of("--short"), bytes_of("HEAD")]
}

/// The arguments that list the changes to tracked files.
pub open spec fn status_args() -> Seq<Seq<u8>> {
    seq![bytes_of("status"), bytes_of("--porcelain"), bytes_of("--untracked-files=no")]
}

/// The tag that a run of `describe` gave, trimmed: none where the run
/// failed or printed nothing but white space.
pub open spec fn tag_of(tag: OutcomeModel) -> Option<Seq<char>> {
    match text_output(describe_args(), tag) {
        Ok(t) => if trimmed(t).len() > 0 {
            Some(trimmed(t))
        } else {
            None
        },
        Err(_) => None,
    }
}

/// The revision without a marker: the tag if the run of `describe` gave
/// one, else the short hash, trimmed. A failed run for the short hash is an
/// error, and so is one that printed nothing but white space.
pub open spec fn bare_revision(tag: OutcomeModel, short_hash: OutcomeModel) -> Result<
    Seq<char>,
    ErrorModel,
> {
    match tag_of(tag) {
        Some(t) => Ok(t),
        None => match text_output(short_hash_args(), short_hash) {
            Ok(h) => if trimmed(h).len() > 0 {
                Ok(trimmed(h))
            } else {
                Err(ErrorModel::Malformed { command: command_line(short_hash_args()) })
            },
            Err(e) => Err(e),
        },
    }
}

/// `base`, followed by `+` where the run of `status` listed any change.
pub open spec fn marked_revision(base: Seq<char>, status: OutcomeModel) -> Result<
    Seq<char>,
    ErrorModel,
> {
    match raw_output(status_args(), status) {
        Err(e) => Err(e),
        Ok(changes) => Ok(
            if changes.len() > 0 {
                base.push('+')
            } else {
                base
            },
        ),
    }
}

/// The revision without a marker, from the run of `describe` and, where
/// that gave no tag, the run of `rev-parse --short`.
pub fn revision_bare_impl(tag: Outcome, short_hash: Outcome) -> (r: Result<String, RevisionError>)
    ensures
        text_result(r) == bare_revision(tag@, short_hash@),
        r matches Ok(s) ==> s@.len() > 0 && trimmed(s@) == s@,
{
    match describe_tag(tag) {
        Some(t) => Ok(t),
        None => {
            let args = short_hash_arguments();
            match git_output(&args, short_hash) {
                Ok(h) => {
                    let hash = trim_text(h.as_str());
                    proof {
                        lemma_trimmed_idempotent(h@);
                    }
                    if hash.as_str().unicode_len() > 0 {
                        Ok(hash)
                    } else {
                        Err(RevisionError::Malformed { command: git_command(&args) })
                    }
                },
                Err(e) => Err(e),
            }
        },
    }
}

/// The tag that a run of `describe` gave, trimmed, if any.
pub fn describe_tag(tag: Outcome) -> (r: Option<String>)
    ensures
        match (r, tag_of(tag@)) {
            (Some(s), Some(t)) => s@ == t,
            (None, None) => true,
            _ => false,
        },
        r matches Some(s) ==> s@.len() > 0 && trimmed(s@) == s@,
{
    match git_output(&describe_arguments(), tag) {
        Ok(t) => {
            let name = trim_text(t.as_str());
            proof {
                lemma_trimmed_idempotent(t@);
            }
            if name.as_str().unicode_len() > 0 {
                Some(name)
            } else {
                None
            }
        },
        Err(_) => None,
    }
}

/// The revision with its marker of local changes, from the run of `status`.
pub fn revision_impl(base: String, status: Outcome) -> (r: Result<String, RevisionError>)
    ensures
        text_result(r) == marked_revision(base@, status@),
{
    match git_raw_output(&status_arguments(), status) {
        Err(e) => Err(e),
        Ok(changes) => if changes.len() > 0 {
            proof {
                reveal_strlit("+");
            }
            let r = base.concat("+");
            assert(r@ =~= base@.push('+'));
            Ok(r)
        } else {
            Ok(base)
        },
    }
}

/// The arguments that ask for the top of the working tree.
pub fn top_level_arguments() -> (r: Vec<Vec<u8>>)
    ensures
        byte_strings(r@) == top_level_args(),
{
    let r = vec![arg("rev-parse"), arg("--show-toplevel")];
    assert(byte_strings(r@) =~= top_level_args());
    r
}

/// The arguments that list the tracked files under `top`.
pub fn listing_arguments(top: &[u8]) -> (r: Vec<Vec<u8>>)
    ensures
        byte_strings(r@) == listing_args(top@),
{
    let r = vec![arg("-C"), vstd::slice::slice_to_vec(top), arg("ls-files"), arg("--full-name"), arg("-z")];
    assert(byte_strings(r@) =~= listing_args(top@));
    r
}

/// The arguments that ask for a tag that names `HEAD` exactly.
pub fn describe_arguments() -> (r: Vec<Vec<u8>>)
    ensures
        byte_strings(r@) == describe_args(),
{
    let r = vec![arg("describe"), arg("--exact-match"), arg("--tags"), arg("HEAD")];
    assert(byte_strings(r@) =~= describe_args());
    r
}

/// The arguments that ask for the short hash of `HEAD`.
pub fn short_hash_arguments() -> (r: Vec<Vec<u8>>)
    ensures
        byte_strings(r@) == short_hash_args(),
{
    let r = vec![arg("rev-parse"), arg("--short"), arg("HEAD")];
    assert(byte_strings(r@) =~= short_hash_args());
    r
}

/// The arguments that list the changes to tracked files.
pub fn status_arguments() -> (r: Vec<Vec<u8>>)
    ensures
        byte_strings(r@) == status_args(),
{
    let r = vec![arg("status"), arg("--porcelain"), arg("--untracked-files=no")];
    assert(byte_strings(r@) =~= status_args());
    r
}

} // verus!

verus! {

/// Where the sources to watch come from.
#[derive(Debug)]
pub enum Sources {
    /// Paths given by the caller, taken from the directory that holds the
    /// metadata directory (the working tree's root).
    Listed(Vec<Vec<u8>>),
    /// Every file that the repository tracks.
    Discovered,
}

/// How far a resolution has come: each phase but the last waits for the
/// outcome of one run of `git`.
pub enum Phase {
    Probe,
    TopLevel,
    Listing { top: Vec<u8> },
    GitDir,
    Describe,
    ShortHash { tag: Outcome },
    Status { base: String },
    Finished,
}

/// A [`Phase`] over mathematical values.
pub enum PhaseModel {
    Probe,
    TopLevel,
    Listing { top: Seq<u8> },
    GitDir,
    Describe,
    ShortHash { tag: OutcomeModel },
    Status { base: Seq<char> },
    Finished,
}

impl View for Phase {
    type V = PhaseModel;

    open spec fn view(&self) -> PhaseModel {
        match self {
            Phase::Probe => PhaseModel::Probe,
            Phase::TopLevel => PhaseModel::TopLevel,
            Phase::Listing { top } => PhaseModel::Listing { top: top@ },
            Phase::GitDir => PhaseModel::GitDir,
            Phase::Describe => PhaseModel::Describe,
            Phase::ShortHash { tag } => PhaseModel::ShortHash { tag: tag@ },
            Phase::Status { base } => PhaseModel::Status { base: base@ },
            Phase::Finished => PhaseModel::Finished,
        }
    }
}

/// One run of `git` that a resolution asks for.
#[derive(Debug)]
pub struct Invocation {
    /// The arguments after the executable's name.
    pub args: Vec<Vec<u8>>,
    /// Whether standard output and standard error are discarded.
    pub quiet: bool,
}

/// What a resolution asks for next.
#[derive(Debug)]
pub enum Action {
    /// Run `git` and hand back the outcome.
    Run(Invocation),
    /// The resolution is over: no revision (`None`), a revision, or an error.
    Finish(Result<Option<String>, RevisionError>),
}

/// The answer to one outcome: lines to write, in order, before the action.
#[derive(Debug)]
pub struct Step {
    pub lines: Vec<Vec<u8>>,
    pub action: Action,
}

/// A resolution of the revision, driven one run of `git` at a time.
pub struct Resolver {
    mark_changes: bool,
    discover: bool,
    text_paths: bool,
    sources: Vec<Vec<u8>>,
    phase: Phase,
}

/// A [`Resolver`] over mathematical values.
pub struct ResolverModel {
    /// Whether local changes are marked with `+`.
    pub mark_changes: bool,
    /// Whether the sources are the files that the repository tracks.
    pub discover: bool,
    /// Whether paths are text on this platform, so that only UTF-8 is one.
    pub text_paths: bool,
    /// The sources to watch, once known.
    pub sources: Seq<Seq<u8>>,
    pub phase: PhaseModel,
}

/// An [`Action`] over mathematical values.
pub enum ActionModel {
    Run { args: Seq<Seq<u8>>, quiet: bool },
    Finish(Result<Option<Seq<char>>, ErrorModel>),
}

/// A [`Step`] over mathematical values, with the state that follows it.
pub struct StepModel {
    pub next: ResolverModel,
    pub lines: Seq<Seq<u8>>,
    pub action: ActionModel,
}

impl View for Resolver {
    type V = ResolverModel;

    closed spec fn view(&self) -> ResolverModel {
        ResolverModel {
            mark_changes: self.mark_changes,
            discover: self.discover,
            text_paths: self.text_paths,
            sources: byte_strings(self.sources@),
            phase: self.phase@,
        }
    }
}

/// The view of an action.
pub open spec fn action_view(a: Action) -> ActionModel {
    match a {
        Action::Run(i) => ActionModel::Run { args: byte_strings(i.args@), quiet: i.quiet },
        Action::Finish(Ok(None)) => ActionModel::Finish(Ok(None)),
        Action::Finish(Ok(Some(s))) => ActionModel::Finish(Ok(Some(s@))),
        Action::Finish(Err(e)) => ActionModel::Finish(Err(e@)),
    }
}

/// A fresh resolution: nothing has been run yet.
pub open spec fn initial(
    mark_changes: bool,
    discover: bool,
    text_paths: bool,
    sources: Seq<Seq<u8>>,
) -> ResolverModel {
    ResolverModel { mark_changes, discover, text_paths, sources, phase: PhaseModel::Probe }
}

/// The step that asks for a run of `git` with `args`, its output kept.
pub open spec fn ask(next: ResolverModel, lines: Seq<Seq<u8>>, args: Seq<Seq<u8>>) -> StepModel {
    StepModel { next, lines, action: ActionModel::Run { args, quiet: false } }
}

/// The step that ends the resolution of `s` with `result`.
pub open spec fn finish(s: ResolverModel, lines: Seq<Seq<u8>>, result: Result<
    Option<Seq<char>>,
    ErrorModel,
>) -> StepModel {
    StepModel {
        next: ResolverModel { phase: PhaseModel::Finished, ..s },
        lines,
        action: ActionModel::Finish(result),
    }
}

/// The step once the revision without a marker is known: it is the result,
/// or local changes are looked for where they are marked.
pub open spec fn after_base(s: ResolverModel, base: Result<Seq<char>, ErrorModel>) -> StepModel {
    match base {
        Err(e) => finish(s, Seq::empty(), Err(e)),
        Ok(b) => if s.mark_changes {
            ask(ResolverModel { phase: PhaseModel::Status { base: b }, ..s }, Seq::empty(), status_args())
        } else {
            finish(s, Seq::empty(), Ok(Some(b)))
        },
    }
}

/// The answer of a resolution in state `s` to the outcome `o` of the run
/// it asked for.
pub open spec fn transition(s: ResolverModel, o: OutcomeModel) -> StepModel {
    match s.phase {
        PhaseModel::Probe => match gate_warning(o) {
            Some(w) => finish(s, seq![w], Ok(None)),
            None => if s.discover {
                ask(ResolverModel { phase: PhaseModel::TopLevel, ..s }, Seq::empty(), top_level_args())
            } else {
                ask(ResolverModel { phase: PhaseModel::GitDir, ..s }, Seq::empty(), git_dir_args())
            },
        },
        PhaseModel::TopLevel => match raw_output(top_level_args(), o) {
            Err(e) => finish(s, Seq::empty(), Err(e)),
            Ok(b) => if is_path(without_newline(b), s.text_paths) {
                ask(
                    ResolverModel { phase: PhaseModel::Listing { top: without_newline(b) }, ..s },
                    Seq::empty(),
                    listing_args(without_newline(b)),
                )
            } else {
                finish(s, Seq::empty(), Err(ErrorModel::Encoding { command: command_line(top_level_args()) }))
            },
        },
        PhaseModel::Listing { top } => match raw_output(listing_args(top), o) {
            Err(e) => finish(s, Seq::empty(), Err(e)),
            Ok(l) => if is_path(l, s.text_paths) {
                ask(
                    ResolverModel { sources: tracked_paths(top, l), phase: PhaseModel::GitDir, ..s },
                    Seq::empty(),
                    git_dir_args(),
                )
            } else {
                finish(s, Seq::empty(), Err(ErrorModel::Encoding { command: command_line(listing_args(top)) }))
            },
        },
        PhaseModel::GitDir => match rerun_directives(o, s.sources, s.discover, s.text_paths) {
            Err(e) => finish(s, Seq::empty(), Err(e)),
            Ok(lines) => ask(ResolverModel { phase: PhaseModel::Describe, ..s }, lines, describe_args()),
        },
        PhaseModel::Describe => match tag_of(o) {
            Some(t) => after_base(s, Ok(t)),
            None => ask(
                ResolverModel { phase: PhaseModel::ShortHash { tag: o }, ..s },
                Seq::empty(),
                short_hash_args(),
            ),
        },
        PhaseModel::ShortHash { tag } => after_base(s, bare_revision(tag, o)),
        PhaseModel::Status { base } => match marked_revision(base, o) {
            Err(e) => finish(s, Seq::empty(), Err(e)),
            Ok(r) => finish(s, Seq::empty(), Ok(Some(r))),
        },
        PhaseModel::Finished => finish(s, Seq::empty(), Ok(None)),
    }
}

/// What a resolution in state `s` writes and how it ends when handed
/// `outcomes`, one for each run it asks for; `None` where the outcomes run
/// out before the end.
pub open spec fn run(s: ResolverModel, outcomes: Seq<OutcomeModel>) -> (Seq<Seq<u8>>, Option<
    Result<Option<Seq<char>>, ErrorModel>,
>)
    decreases outcomes.len(),
{
    if outcomes.len() == 0 {
        (Seq::empty(), None)
    } else {
        let st = transition(s, outcomes[0]);
        match st.action {
            ActionModel::Finish(r) => (st.lines, Some(r)),
            ActionModel::Run { .. } => {
                let rest = run(st.next, outcomes.drop_first());
                (st.lines + rest.0, rest.1)
            },
        }
    }
}

impl Resolver {
    /// A resolution that marks local changes where `mark_changes` holds and
    /// watches `sources`; `text_paths` says whether paths are text on this
    /// platform. Its first run is [`Resolver::probe`].
    pub fn new(mark_changes: bool, sources: Sources, text_paths: bool) -> (r: Resolver)
        ensures
            r@ == initial(
                mark_changes,
                sources is Discovered,
                text_paths,
                match sources {
                    Sources::Listed(v) => byte_strings(v@),
                    Sources::Discovered => Seq::empty(),
                },
            ),
    {
        match sources {
            Sources::Listed(v) => Resolver {
                mark_changes,
                discover: false,
                text_paths,
                sources: v,
                phase: Phase::Probe,
            },
            Sources::Discovered => {
                let r = Resolver {
                    mark_changes,
                    discover: true,
                    text_paths,
                    sources: Vec::new(),
                    phase: Phase::Probe,
                };
                assert(byte_strings(r.sources@) =~= Seq::empty());
                r
            },
        }
    }

    /// The first run of every resolution: whether the directory lies in a
    /// repository, with all output discarded.
    pub fn probe() -> (r: Invocation)
        ensures
            byte_strings(r.args@) == probe_args(),
            r.quiet,
    {
        Invocation { args: probe_arguments(), quiet: true }
    }

    /// Whether the resolution is over.
    pub fn is_finished(&self) -> (r: bool)
        ensures
            r == (self@.phase is Finished),
    {
        match self.phase {
            Phase::Finished => true,
            _ => false,
        }
    }

    fn ask(&mut self, phase: Phase, lines: Vec<Vec<u8>>, args: Vec<Vec<u8>>) -> (r: Step)
        ensures
            final(self)@ == (ResolverModel { phase: phase@, ..old(self)@ }),
            byte_strings(r.lines@) == byte_strings(lines@),
            action_view(r.action) == (ActionModel::Run { args: byte_strings(args@), quiet: false }),
    {
        self.phase = phase;
        Step { lines, action: Action::Run(Invocation { args, quiet: false }) }
    }

    fn finish(&mut self, lines: Vec<Vec<u8>>, result: Result<Option<String>, RevisionError>) -> (r: Step)
        ensures
            final(self)@ == (ResolverModel { phase: PhaseModel::Finished, ..old(self)@ }),
            byte_strings(r.lines@) == byte_strings(lines@),
            r.action == Action::Finish(result),
    {
        self.phase = Phase::Finished;
        Step { lines, action: Action::Finish(result) }
    }

    fn after_base(&mut self, base: Result<String, RevisionError>) -> (r: Step)
        ensures
            final(self)@ == after_base(old(self)@, text_result(base)).next,
            byte_strings(r.lines@) == after_base(old(self)@, text_result(base)).lines,
            action_view(r.action) == after_base(old(self)@, text_result(base)).action,
    {
        match base {
            Err(e) => self.finish(Vec::new(), Err(e)),
            Ok(b) => if self.mark_changes {
                self.ask(Phase::Status { base: b }, Vec::new(), status_arguments())
            } else {
                self.finish(Vec::new(), Ok(Some(b)))
            },
        }
    }

    /// Takes the outcome of the run asked for last and answers with the
    /// lines to write and what comes next.
    pub fn step(&mut self, outcome: Outcome) -> (r: Step)
        ensures
            final(self)@ == transition(old(self)@, outcome@).next,
            byte_strings(r.lines@) == transition(old(self)@, outcome@).lines,
            action_view(r.action) == transition(old(self)@, outcome@).action,
    {
        let mut phase = Phase::Finished;
        std::mem::swap(&mut self.phase, &mut phase);
        assert(old(self)@ == (ResolverModel { phase: phase@, ..self@ }));
        match phase {
            Phase::Probe => match with_valid_git(&outcome) {
                Gate::Unavailable { warning } => self.finish(vec![warning], Ok(None)),
                Gate::Proceed => if self.discover {
                    self.ask(Phase::TopLevel, Vec::new(), top_level_arguments())
                } else {
                    self.ask(Phase::GitDir, Vec::new(), git_dir_arguments())
                },
            },
            Phase::TopLevel => {
                let asked = top_level_arguments();
                match git_raw_output(&asked, outcome) {
                    Err(e) => self.finish(Vec::new(), Err(e)),
                    Ok(b) => match checked_path(strip_newline(b.as_slice()).as_slice(), self.text_paths) {
                        Some(top) => {
                            let args = listing_arguments(top.as_slice());
                            self.ask(Phase::Listing { top }, Vec::new(), args)
                        },
                        None => self.finish(Vec::new(), Err(RevisionError::Encoding { command: git_command(&asked) })),
                    },
                }
            },
            Phase::Listing { top } => {
                let asked = listing_arguments(top.as_slice());
                match git_raw_output(&asked, outcome) {
                    Err(e) => self.finish(Vec::new(), Err(e)),
                    Ok(l) => match checked_path(l.as_slice(), self.text_paths) {
                        Some(listing) => {
                            self.sources = list_tracked_objects(top.as_slice(), listing.as_slice());
                            self.ask(Phase::GitDir, Vec::new(), git_dir_arguments())
                        },
                        None => self.finish(Vec::new(), Err(RevisionError::Encoding { command: git_command(&asked) })),
                    },
                }
            },
            Phase::GitDir => match print_rerun_if_changed(outcome, &self.sources, self.discover, self.text_paths) {
                Err(e) => self.finish(Vec::new(), Err(e)),
                Ok(lines) => self.ask(Phase::Describe, lines, describe_arguments()),
            },
            Phase::Describe => {
                let kept = outcome.duplicate();
                match describe_tag(outcome) {
                    Some(t) => self.after_base(Ok(t)),
                    None => self.ask(Phase::ShortHash { tag: kept }, Vec::new(), short_hash_arguments()),
                }
            },
            Phase::ShortHash { tag } => {
                let base = revision_bare_impl(tag, outcome);
                self.after_base(base)
            },
            Phase::Status { base } => match revision_impl(base, outcome) {
                Err(e) => self.finish(Vec::new(), Err(e)),
                Ok(r) => self.finish(Vec::new(), Ok(Some(r))),
            },
            Phase::Finished => self.finish(Vec::new(), Ok(None)),
        }
    }
}

} // verus!
