//! One run over a source tree, as a machine that turns each event of the
//! walk into the next step.
use vstd::prelude::*;
use crate::cli::{response_to, Behaviors, FailureBehavior, FailureResponse, LogLevel};
use crate::cli::{Driver, Environment};
use crate::mapping::{opt_text, AutoMapping, AutoMappingConfig, MappingError, PathMapping};
use crate::path::parse;
use crate::nixdoc::{generation_message, AutoNixdoc, GenerationError, Job};

verus! {

/// What the walk of the input tree yields.
pub enum WalkEntry {
    /// An entry could not be read; the text describes why.
    Unreadable(String),
    /// A path was found. `is_unicode` says whether it is valid Unicode;
    /// when not, `path` holds a lossy rendering of it.
    Found { path: String, is_dir: bool, is_unicode: bool },
}

/// A failure met during the run, with its context.
#[derive(Debug)]
pub enum Failure {
    /// A directory entry could not be read.
    Listing(String),
    /// The generation of a file could not be planned.
    Planning(String, GenerationError),
    /// The generator failed on a file.
    Generator(String, String),
}

/// The view of a failure.
pub enum FailureView {
    Listing(Seq<char>),
    Planning(Seq<char>, GenerationError),
    Generator(Seq<char>, Seq<char>),
}

impl View for Failure {
    type V = FailureView;

    open spec fn view(&self) -> FailureView {
        match self {
            Failure::Listing(e) => FailureView::Listing(e@),
            Failure::Planning(p, e) => FailureView::Planning(p@, *e),
            Failure::Generator(p, m) => FailureView::Generator(p@, m@),
        }
    }
}

/// The description of a failure, with the path it concerns.
pub open spec fn failure_message(f: FailureView) -> Seq<char> {
    match f {
        FailureView::Listing(e) => "Failed to list directory: "@ + e,
        FailureView::Planning(p, e) => "Failed to generate documentation for "@ + p + ": "@ + generation_message(e),
        FailureView::Generator(p, m) => "Failed to generate documentation for "@ + p + ": "@ + m,
    }
}

/// The description of a failure that stops the run: the context of the
/// failed operation, then its cause.
pub open spec fn abort_message(f: FailureView) -> Seq<char> {
    match f {
        FailureView::Listing(e) => "Failed to list directory: "@ + e,
        FailureView::Planning(p, e) => "Documentation generation failed for file "@ + p + ": "@ + generation_message(e),
        FailureView::Generator(p, m) => "Documentation generation failed for file "@ + p + ": "@ + m,
    }
}

impl Failure {
    /// The description of a failure that stops the run.
    pub fn abort_message(&self) -> (r: String)
        ensures
            r@ == abort_message(self@),
    {
        match self {
            Failure::Listing(e) => String::from_str("Failed to list directory: ").concat(e.as_str()),
            Failure::Planning(p, e) => String::from_str("Documentation generation failed for file ").concat(
                p.as_str(),
            ).concat(": ").concat(e.message().as_str()),
            Failure::Generator(p, m) => String::from_str("Documentation generation failed for file ").concat(
                p.as_str(),
            ).concat(": ").concat(m.as_str()),
        }
    }

    /// The description of a failure that is reported while the run goes on.
    pub fn message(&self) -> (r: String)
        ensures
            r@ == failure_message(self@),
    {
        match self {
            Failure::Listing(e) => String::from_str("Failed to list directory: ").concat(e.as_str()),
            Failure::Planning(p, e) => String::from_str("Failed to generate documentation for ").concat(
                p.as_str(),
            ).concat(": ").concat(e.message().as_str()),
            Failure::Generator(p, m) => String::from_str("Failed to generate documentation for ").concat(
                p.as_str(),
            ).concat(": ").concat(m.as_str()),
        }
    }
}

/// The view of a job: source, destination, destination directory,
/// category, prefix and anchor prefix.
pub open spec fn job_view(j: Job) -> (Seq<char>, Seq<char>, Option<Seq<char>>, Seq<char>, Option<Seq<char>>, Option<Seq<char>>) {
    (j.source@, j.dest@, opt_text(j.dest_dir), j.category@, opt_text(j.prefix), opt_text(j.anchor_prefix))
}

/// The view of a step.
pub enum StepView {
    Next,
    Generate((Seq<char>, Seq<char>, Option<Seq<char>>, Seq<char>, Option<Seq<char>>, Option<Seq<char>>)),
    Report(FailureView),
    Abort(FailureView),
}

/// What the caller does next.
pub enum Step {
    /// Go on with the next entry.
    Next,
    /// Run the generator for this job, then report its outcome.
    Generate(Job),
    /// Emit the failure on the diagnostic stream, then go on.
    Report(Failure),
    /// Stop the run with the failure; the exit status is non-zero.
    Abort(Failure),
}

impl View for Step {
    type V = StepView;

    open spec fn view(&self) -> StepView {
        match self {
            Step::Next => StepView::Next,
            Step::Generate(j) => StepView::Generate(job_view(*j)),
            Step::Report(f) => StepView::Report(f@),
            Step::Abort(f) => StepView::Abort(f@),
        }
    }
}

/// The text a step shows: the report of a failure the run goes on after,
/// or the error a stopped run ends with.
pub open spec fn step_message(s: StepView) -> Option<Seq<char>> {
    match s {
        StepView::Report(f) => Some(failure_message(f)),
        StepView::Abort(f) => Some(abort_message(f)),
        _ => None,
    }
}

impl Step {
    /// The text this step shows, if any: a reported failure's description,
    /// or the error that ends a stopped run.
    pub fn message(&self) -> (r: Option<String>)
        ensures
            opt_text(r) == step_message(self@),
    {
        match self {
            Step::Report(f) => Some(f.message()),
            Step::Abort(f) => Some(f.abort_message()),
            _ => None,
        }
    }
}

/// `s` is what `b` makes of the failure `f`.
pub open spec fn handles_failure(b: FailureBehavior, s: Step, f: FailureView) -> bool {
    match response_to(b) {
        FailureResponse::Propagate => s matches Step::Abort(g) && g@ == f,
        FailureResponse::Report => s matches Step::Report(g) && g@ == f,
        FailureResponse::Ignore => s is Next,
    }
}

fn failure_step(b: FailureBehavior, f: Failure) -> (r: Step)
    ensures
        handles_failure(b, r, f@),
{
    match b.response() {
        FailureResponse::Propagate => Step::Abort(f),
        FailureResponse::Report => Step::Report(f),
        FailureResponse::Ignore => Step::Next,
    }
}

/// The resolved state of one run; it does not change while the run lasts.
pub struct Run {
    pub behaviors: Behaviors,
    pub logging_level: Option<LogLevel>,
    pub autonixdoc: AutoNixdoc<AutoMapping>,
    pub config: AutoMappingConfig,
}

impl Run {
    /// The step for a file at `path` that the identification strategy takes.
    pub open spec fn target_step(&self, path: Seq<char>, is_unicode: bool, r: Step) -> bool {
        match self.autonixdoc.planned(&self.config, path, is_unicode) {
            Ok(None) => r is Next,
            Ok(Some((dest, c))) => r matches Step::Generate(job) && self.autonixdoc.job_for(job, path, dest, c),
            Err(GenerationError::Mapping(MappingError::OutsideRoot)) => r matches Step::Abort(f)
                && f@ == FailureView::Planning(path, GenerationError::Mapping(MappingError::OutsideRoot)),
            Err(e) => handles_failure(self.behaviors.on_failure, r, FailureView::Planning(path, e)),
        }
    }

    /// The step for one entry of the walk.
    pub open spec fn entry_step(&self, entry: WalkEntry, r: Step) -> bool {
        match entry {
            WalkEntry::Unreadable(e) => handles_failure(self.behaviors.on_failure, r, FailureView::Listing(e@)),
            WalkEntry::Found { path, is_dir, is_unicode } => if is_dir
                || !self.behaviors.path_identification.identifies(path@) {
                r is Next
            } else {
                self.target_step(path@, is_unicode, r)
            },
        }
    }

    /// Decides what to do with one entry of the walk: directories and
    /// files that the identification strategy declines are passed over,
    /// failures go to the failure behavior, and a file outside the input
    /// root stops the run whatever the behavior.
    pub fn on_entry(&self, entry: WalkEntry) -> (r: Step)
        ensures
            self.entry_step(entry, r),
    {
        match entry {
            WalkEntry::Unreadable(e) => failure_step(self.behaviors.on_failure, Failure::Listing(e)),
            WalkEntry::Found { path, is_dir, is_unicode } => {
                if is_dir || !self.behaviors.path_identification.should_process(path.as_str()) {
                    return Step::Next;
                }
                match self.autonixdoc.execute(&self.config, path.as_str(), is_unicode) {
                    Ok(None) => Step::Next,
                    Ok(Some(job)) => Step::Generate(job),
                    Err(GenerationError::Mapping(MappingError::OutsideRoot)) => Step::Abort(
                        Failure::Planning(path, GenerationError::Mapping(MappingError::OutsideRoot)),
                    ),
                    Err(e) => failure_step(self.behaviors.on_failure, Failure::Planning(path, e)),
                }
            },
        }
    }

    /// Decides what follows a generator run on the file at `path`.
    pub fn on_generated(&self, path: &str, outcome: Result<(), String>) -> (r: Step)
        ensures
            match outcome {
                Ok(()) => r is Next,
                Err(m) => handles_failure(self.behaviors.on_failure, r, FailureView::Generator(path@, m@)),
            },
    {
        match outcome {
            Ok(()) => Step::Next,
            Err(m) => failure_step(self.behaviors.on_failure, Failure::Generator(String::from_str(path), m)),
        }
    }
}

/// Under `Abort` a failure, of the walk or of a file, stops the run;
/// under `Log` it is reported and the run goes on; under `Skip` the run
/// goes on without a word. So only `Abort` ever ends a run early.
pub proof fn law_failure_behavior(b: FailureBehavior, s: Step, f: FailureView)
    requires
        handles_failure(b, s, f),
    ensures
        s is Abort <==> b is Abort,
        b is Log ==> s is Report,
        b is Skip ==> s is Next,
{
}

/// Whether a found file is generated does not depend on the failure
/// behavior: two runs that differ only in it take the same step for a
/// file whose planning succeeds.
pub proof fn law_success_ignores_behavior(a: Run, b: Run, path: Seq<char>, is_unicode: bool, sa: Step, sb: Step)
    requires
        a.autonixdoc == b.autonixdoc,
        a.config == b.config,
        a.autonixdoc.planned(&a.config, path, is_unicode) is Ok,
        a.target_step(path, is_unicode, sa),
        b.target_step(path, is_unicode, sb),
    ensures
        sa is Next <==> sb is Next,
        sa is Generate <==> sb is Generate,
        !(sa is Abort) && !(sb is Abort),
{
}

/// Adding a path to the ignore list makes that path skipped, so that no
/// documentation is planned for it, and leaves the plan of every path
/// with other components as it was.
pub proof fn law_ignore_exclusive(
    n: AutoNixdoc<AutoMapping>,
    before: AutoMappingConfig,
    after: AutoMappingConfig,
    ignored: String,
    other: Seq<char>,
    is_unicode: bool,
)
    requires
        after.ignore_paths@ == before.ignore_paths@.push(ignored),
    ensures
        n.spec_mapper().resolution(&after, ignored@) == Ok::<Option<Seq<char>>, MappingError>(None),
        n.planned(&after, ignored@, is_unicode) == Ok::<Option<(Seq<char>, Seq<char>)>, GenerationError>(None),
        parse(other) != parse(ignored@) ==> n.planned(&after, other, is_unicode) == n.planned(&before, other, is_unicode),
{
    let last = before.ignore_paths@.len() as int;
    assert(after.ignore_paths@[last] == ignored);
    assert(parse(after.ignore_paths@[last]@) == parse(ignored@));
    if parse(other) != parse(ignored@) {
        if crate::mapping::is_ignored(after.ignore_paths@, other) {
            let i = choose|i: int| 0 <= i < after.ignore_paths@.len() && #[trigger] parse(after.ignore_paths@[i]@) == parse(other);
            assert(i != last);
            assert(after.ignore_paths@[i] == before.ignore_paths@[i]);
        }
        if crate::mapping::is_ignored(before.ignore_paths@, other) {
            let i = choose|i: int| 0 <= i < before.ignore_paths@.len() && #[trigger] parse(before.ignore_paths@[i]@) == parse(other);
            assert(after.ignore_paths@[i] == before.ignore_paths@[i]);
        }
    }
}

/// Running twice with the same options, environment and configuration
/// plans the same thing: the two runs take steps with the same view for
/// every entry of the walk (the same jobs, to the same destinations, with
/// the same generator arguments, and the same failures). With a generator
/// that depends only on its arguments and the source text, and every
/// destination truncated before it is written, the second run rewrites
/// the same files with the same bytes.
pub proof fn law_runs_repeat(
    d: Driver,
    env: Environment,
    config: AutoMappingConfig,
    a: Run,
    b: Run,
    entry: WalkEntry,
    sa: Step,
    sb: Step,
)
    requires
        d.sets_up(&env, &config, a),
        d.sets_up(&env, &config, b),
        a.entry_step(entry, sa),
        b.entry_step(entry, sb),
    ensures
        sa@ == sb@,
{
    assert(a.autonixdoc.spec_mapper()@ == b.autonixdoc.spec_mapper()@);
    match entry {
        WalkEntry::Unreadable(e) => {},
        WalkEntry::Found { path, is_dir, is_unicode } => {
            assert(a.behaviors.path_identification.identifies(path@)
                == b.behaviors.path_identification.identifies(path@));
            assert(a.autonixdoc.planned(&a.config, path@, is_unicode) == b.autonixdoc.planned(&b.config, path@, is_unicode));
        },
    }
}

} // verus!
