//! A build as a sequence of requests and replies. The run decides what is
//! to be done next; its driver does it, on the file system or with the
//! compiler, and reports how it went.

use crate::artifacts::{Artifacts, ArtifactsView};
use crate::catalog::Version;
use crate::config::{Build, BuildView, Environment, EnvironmentView};
use crate::error::{BuildError, BuildErrorView, FileOp, FileOpView};
use crate::job::{select_sources, sources_in, CompileJob, CompileJobView};
use crate::plan::{planned, Plan, PlanView};
use crate::staging::{
    published_header, published_header_count, published_headers, stage_file, staged,
};
use crate::text::{join_path, joined};
use vstd::prelude::*;

verus! {

/// What a run asks its driver to do.
#[derive(Debug, PartialEq, Eq)]
pub enum Action {
    /// Find out whether the directory exists; reply with [`Event::Exists`].
    Probe(String),
    /// Create the directory and its parents; reply with [`Event::Done`].
    CreateDir(String),
    /// Remove the directory and all it holds; reply with [`Event::Done`].
    RemoveDir(String),
    /// List the names of the directory's entries; reply with
    /// [`Event::Entries`]. An entry that cannot be read fails the listing.
    ListDir(String),
    /// List the names of those entries of the directory that can be read;
    /// reply with [`Event::Entries`]. An entry that cannot be read is left
    /// out; only a directory that cannot be read fails the listing.
    ScanDir(String),
    /// Read the file; reply with [`Event::Content`].
    ReadFile(String),
    /// Write the bytes to the file; reply with [`Event::Done`].
    WriteFile { path: String, content: Vec<u8> },
    /// Compile the job into its library; reply with [`Event::Done`].
    Compile(CompileJob),
    /// Copy the file; reply with [`Event::Done`].
    CopyFile { from: String, to: String },
    /// The build has succeeded, with these artifacts. Nothing is left to do.
    Finish(Artifacts),
    /// The build has failed, for this reason. Nothing is left to do.
    Abort(BuildError),
    /// The run had ended before. Nothing is left to do.
    Halt,
}

/// How what a run asked for went.
#[derive(Debug, PartialEq, Eq)]
pub enum Event {
    /// It was done.
    Done,
    /// The directory exists, or does not.
    Exists(bool),
    /// The directory holds entries of these names.
    Entries(Vec<String>),
    /// The file holds these bytes.
    Content(Vec<u8>),
    /// It failed, for this reason.
    Failed(String),
}

/// Where a run stands: what it asked for last.
#[derive(Debug, PartialEq, Eq)]
pub enum Phase {
    /// Whether the directory for the headers exists.
    ProbeInclude,
    /// The creation of the directory for the headers.
    CreateInclude,
    /// Whether the staging directory exists.
    ProbeStaging,
    /// The removal of the staging directory.
    RemoveStaging,
    /// The creation of the staging directory.
    CreateStaging,
    /// The listing of the release's source tree, for staging.
    ListTree,
    /// The bytes of the entry at `index`, of those still to be staged.
    ReadSource { names: Vec<String>, index: usize },
    /// The writing of the staged entry at `index`.
    WriteStaged { names: Vec<String>, index: usize },
    /// The listing of the directory whose sources are compiled.
    ListSources,
    /// The compilation.
    Compile,
    /// The copying of the published header at `index`.
    CopyHeader { index: usize },
    /// Nothing: the run has ended.
    Stopped,
}

/// A build under way.
#[derive(Debug, PartialEq, Eq)]
pub struct BuildRun {
    plan: Plan,
    phase: Phase,
}

/// An [`Action`] as a mathematical value.
pub enum ActionView {
    Probe(Seq<char>),
    CreateDir(Seq<char>),
    RemoveDir(Seq<char>),
    ListDir(Seq<char>),
    ScanDir(Seq<char>),
    ReadFile(Seq<char>),
    WriteFile { path: Seq<char>, content: Seq<u8> },
    Compile(CompileJobView),
    CopyFile { from: Seq<char>, to: Seq<char> },
    Finish(ArtifactsView),
    Abort(BuildErrorView),
    Halt,
}

/// An [`Event`] as a mathematical value.
pub enum EventView {
    Done,
    Exists(bool),
    Entries(Seq<Seq<char>>),
    Content(Seq<u8>),
    Failed(Seq<char>),
}

/// A [`Phase`] as a mathematical value.
pub enum PhaseView {
    ProbeInclude,
    CreateInclude,
    ProbeStaging,
    RemoveStaging,
    CreateStaging,
    ListTree,
    ReadSource { names: Seq<Seq<char>>, index: int },
    WriteStaged { names: Seq<Seq<char>>, index: int },
    ListSources,
    Compile,
    CopyHeader { index: int },
    Stopped,
}

/// A [`BuildRun`] as a mathematical value.
pub struct BuildRunView {
    pub plan: PlanView,
    pub phase: PhaseView,
}

impl View for Action {
    type V = ActionView;

    open spec fn view(&self) -> ActionView {
        match self {
            Action::Probe(path) => ActionView::Probe(path@),
            Action::CreateDir(path) => ActionView::CreateDir(path@),
            Action::RemoveDir(path) => ActionView::RemoveDir(path@),
            Action::ListDir(path) => ActionView::ListDir(path@),
            Action::ScanDir(path) => ActionView::ScanDir(path@),
            Action::ReadFile(path) => ActionView::ReadFile(path@),
            Action::WriteFile { path, content } => ActionView::WriteFile {
                path: path@,
                content: content@,
            },
            Action::Compile(job) => ActionView::Compile(job@),
            Action::CopyFile { from, to } => ActionView::CopyFile { from: from@, to: to@ },
            Action::Finish(artifacts) => ActionView::Finish(artifacts@),
            Action::Abort(error) => ActionView::Abort(error@),
            Action::Halt => ActionView::Halt,
        }
    }
}

impl View for Event {
    type V = EventView;

    open spec fn view(&self) -> EventView {
        match self {
            Event::Done => EventView::Done,
            Event::Exists(exists) => EventView::Exists(*exists),
            Event::Entries(names) => EventView::Entries(names.deep_view()),
            Event::Content(bytes) => EventView::Content(bytes@),
            Event::Failed(cause) => EventView::Failed(cause@),
        }
    }
}

impl View for Phase {
    type V = PhaseView;

    open spec fn view(&self) -> PhaseView {
        match self {
            Phase::ProbeInclude => PhaseView::ProbeInclude,
            Phase::CreateInclude => PhaseView::CreateInclude,
            Phase::ProbeStaging => PhaseView::ProbeStaging,
            Phase::RemoveStaging => PhaseView::RemoveStaging,
            Phase::CreateStaging => PhaseView::CreateStaging,
            Phase::ListTree => PhaseView::ListTree,
            Phase::ReadSource { names, index } => PhaseView::ReadSource {
                names: names.deep_view(),
                index: *index as int,
            },
            Phase::WriteStaged { names, index } => PhaseView::WriteStaged {
                names: names.deep_view(),
                index: *index as int,
            },
            Phase::ListSources => PhaseView::ListSources,
            Phase::Compile => PhaseView::Compile,
            Phase::CopyHeader { index } => PhaseView::CopyHeader { index: *index as int },
            Phase::Stopped => PhaseView::Stopped,
        }
    }
}

impl View for BuildRun {
    type V = BuildRunView;

    closed spec fn view(&self) -> BuildRunView {
        BuildRunView { plan: self.plan@, phase: self.phase@ }
    }
}

impl PhaseView {
    /// Every position that the phase holds lies within its list.
    pub open spec fn well_formed(self) -> bool {
        match self {
            PhaseView::ReadSource { names, index } => 0 <= index < names.len(),
            PhaseView::WriteStaged { names, index } => 0 <= index < names.len(),
            PhaseView::CopyHeader { index } => 0 <= index < published_headers().len(),
            _ => true,
        }
    }
}

impl EventView {
    /// Why the step that this event replies to did not succeed: the cause
    /// that a failure gives, and for any other reply that it was not asked
    /// for.
    pub open spec fn cause(self) -> Seq<char> {
        match self {
            EventView::Failed(cause) => cause,
            _ => "unexpected reply"@,
        }
    }
}

/// The end of a run by a failure of the file system.
pub open spec fn file_failure(op: FileOpView, path: Seq<char>, event: EventView) -> (
    PhaseView,
    ActionView,
) {
    (
        PhaseView::Stopped,
        ActionView::Abort(BuildErrorView::Filesystem { op, path, cause: event.cause() }),
    )
}

impl PlanView {
    /// How a run begins: by asking whether the directory for the headers
    /// exists.
    pub open spec fn begin(self) -> (PhaseView, ActionView) {
        (PhaseView::ProbeInclude, ActionView::Probe(self.include_dir()))
    }

    /// What follows once the directory for the headers is there: the staging
    /// of the source tree where the platform asks for it, else the listing of
    /// the sources.
    pub open spec fn after_include(self) -> (PhaseView, ActionView) {
        if self.profile.transform {
            (PhaseView::ProbeStaging, ActionView::Probe(self.staging_dir()))
        } else {
            (PhaseView::ListSources, ActionView::ScanDir(self.compile_root()))
        }
    }

    /// The staging of the entries `names` from position `index` on: the next
    /// entry is read, and after the last the sources are listed.
    pub open spec fn stage_from(self, names: Seq<Seq<char>>, index: int) -> (
        PhaseView,
        ActionView,
    ) {
        if 0 <= index < names.len() {
            (
                PhaseView::ReadSource { names, index },
                ActionView::ReadFile(joined(self.source_dir, names[index])),
            )
        } else {
            (PhaseView::ListSources, ActionView::ScanDir(self.compile_root()))
        }
    }

    /// The publishing of the headers from position `index` on: the next
    /// header is copied, and after the last the build has succeeded.
    pub open spec fn publish_from(self, index: int) -> (PhaseView, ActionView) {
        if 0 <= index < published_headers().len() {
            (
                PhaseView::CopyHeader { index },
                ActionView::CopyFile {
                    from: joined(self.compile_root(), published_headers()[index]),
                    to: joined(self.include_dir(), published_headers()[index]),
                },
            )
        } else {
            (PhaseView::Stopped, ActionView::Finish(self.artifacts()))
        }
    }

    /// What a run in `phase` does on `event`. Each phase awaits one kind of
    /// reply; any other ends the run with a failure, as a reported failure
    /// does.
    pub open spec fn advance(self, phase: PhaseView, event: EventView) -> (PhaseView, ActionView) {
        match phase {
            PhaseView::ProbeInclude => match event {
                EventView::Exists(true) => self.after_include(),
                EventView::Exists(false) => (
                    PhaseView::CreateInclude,
                    ActionView::CreateDir(self.include_dir()),
                ),
                _ => file_failure(FileOpView::Read, self.include_dir(), event),
            },
            PhaseView::CreateInclude => match event {
                EventView::Done => self.after_include(),
                _ => file_failure(FileOpView::Create, self.include_dir(), event),
            },
            PhaseView::ProbeStaging => match event {
                EventView::Exists(true) => (
                    PhaseView::RemoveStaging,
                    ActionView::RemoveDir(self.staging_dir()),
                ),
                EventView::Exists(false) => (
                    PhaseView::CreateStaging,
                    ActionView::CreateDir(self.staging_dir()),
                ),
                _ => file_failure(FileOpView::Read, self.staging_dir(), event),
            },
            PhaseView::RemoveStaging => match event {
                EventView::Done => (
                    PhaseView::CreateStaging,
                    ActionView::CreateDir(self.staging_dir()),
                ),
                _ => file_failure(FileOpView::Remove, self.staging_dir(), event),
            },
            PhaseView::CreateStaging => match event {
                EventView::Done => (PhaseView::ListTree, ActionView::ListDir(self.source_dir)),
                _ => file_failure(FileOpView::Create, self.staging_dir(), event),
            },
            PhaseView::ListTree => match event {
                EventView::Entries(names) => self.stage_from(names, 0),
                _ => file_failure(FileOpView::Read, self.source_dir, event),
            },
            PhaseView::ReadSource { names, index } => match event {
                EventView::Content(bytes) => (
                    PhaseView::WriteStaged { names, index },
                    ActionView::WriteFile {
                        path: joined(self.staging_dir(), names[index]),
                        content: staged(names[index], bytes),
                    },
                ),
                _ => file_failure(FileOpView::Read, joined(self.source_dir, names[index]), event),
            },
            PhaseView::WriteStaged { names, index } => match event {
                EventView::Done => self.stage_from(names, index + 1),
                _ => file_failure(
                    FileOpView::Write,
                    joined(self.staging_dir(), names[index]),
                    event,
                ),
            },
            PhaseView::ListSources => match event {
                EventView::Entries(names) => (
                    PhaseView::Compile,
                    ActionView::Compile(self.job(sources_in(self.compile_root(), names))),
                ),
                _ => file_failure(FileOpView::Read, self.compile_root(), event),
            },
            PhaseView::Compile => match event {
                EventView::Done => self.publish_from(0),
                _ => (
                    PhaseView::Stopped,
                    ActionView::Abort(BuildErrorView::CompileFailure(event.cause())),
                ),
            },
            PhaseView::CopyHeader { index } => match event {
                EventView::Done => self.publish_from(index + 1),
                _ => file_failure(
                    FileOpView::CopyTo(joined(self.include_dir(), published_headers()[index])),
                    joined(self.compile_root(), published_headers()[index]),
                    event,
                ),
            },
            PhaseView::Stopped => (PhaseView::Stopped, ActionView::Halt),
        }
    }
}

impl BuildRunView {
    /// The run of `plan` at its start, and the first thing it asks for.
    pub open spec fn start(plan: PlanView) -> (BuildRunView, ActionView) {
        (BuildRunView { plan, phase: plan.begin().0 }, plan.begin().1)
    }

    /// The run after `event`, and the next thing it asks for.
    pub open spec fn next(self, event: EventView) -> (BuildRunView, ActionView) {
        (
            BuildRunView { plan: self.plan, phase: self.plan.advance(self.phase, event).0 },
            self.plan.advance(self.phase, event).1,
        )
    }

    /// The run has ended.
    pub open spec fn is_stopped(self) -> bool {
        self.phase == PhaseView::Stopped
    }
}

/// The start of a build of `version` with the configuration `config` in the
/// surroundings `env`: the run and its first request, or why there is none.
pub open spec fn started(config: BuildView, version: Version, env: EnvironmentView) -> Result<
    (BuildRunView, ActionView),
    BuildErrorView,
> {
    match planned(config, version, env) {
        Ok(plan) => Ok(BuildRunView::start(plan)),
        Err(error) => Err(error),
    }
}

impl Event {
    /// Why the step that this event replies to did not succeed.
    pub fn cause(self) -> (cause: String)
        ensures
            cause@ == self@.cause(),
    {
        match self {
            Event::Failed(cause) => cause,
            _ => "unexpected reply".to_owned(),
        }
    }
}

fn file_failure_of(op: FileOp, path: String, event: Event) -> (r: (Phase, Action))
    ensures
        (r.0@, r.1@) == file_failure(op@, path@, event@),
{
    (Phase::Stopped, Action::Abort(BuildError::Filesystem { op, path, cause: event.cause() }))
}

impl Plan {
    fn after_include(&self) -> (r: (Phase, Action))
        ensures
            (r.0@, r.1@) == self@.after_include(),
    {
        if self.profile.transform {
            (Phase::ProbeStaging, Action::Probe(self.staging_dir()))
        } else {
            (Phase::ListSources, Action::ScanDir(self.compile_root()))
        }
    }

    fn stage_from(&self, names: Vec<String>, index: usize) -> (r: (Phase, Action))
        ensures
            (r.0@, r.1@) == self@.stage_from(names.deep_view(), index as int),
            r.0@.well_formed(),
    {
        if index < names.len() {
            let path = join_path(self.source_dir.as_str(), names[index].as_str());
            (Phase::ReadSource { names, index }, Action::ReadFile(path))
        } else {
            (Phase::ListSources, Action::ScanDir(self.compile_root()))
        }
    }

    fn publish_from(&self, index: usize) -> (r: (Phase, Action))
        ensures
            (r.0@, r.1@) == self@.publish_from(index as int),
            r.0@.well_formed(),
    {
        if index < published_header_count() {
            let name = published_header(index);
            let from = join_path(self.compile_root().as_str(), name);
            let to = join_path(self.include_dir().as_str(), name);
            (Phase::CopyHeader { index }, Action::CopyFile { from, to })
        } else {
            (Phase::Stopped, Action::Finish(self.artifacts()))
        }
    }

    fn advance(&self, phase: Phase, event: Event) -> (r: (Phase, Action))
        requires
            phase@.well_formed(),
        ensures
            (r.0@, r.1@) == self@.advance(phase@, event@),
            r.0@.well_formed(),
    {
        match phase {
            Phase::ProbeInclude => match event {
                Event::Exists(true) => self.after_include(),
                Event::Exists(false) => (
                    Phase::CreateInclude,
                    Action::CreateDir(self.include_dir()),
                ),
                other => file_failure_of(FileOp::Read, self.include_dir(), other),
            },
            Phase::CreateInclude => match event {
                Event::Done => self.after_include(),
                other => file_failure_of(FileOp::Create, self.include_dir(), other),
            },
            Phase::ProbeStaging => match event {
                Event::Exists(true) => (
                    Phase::RemoveStaging,
                    Action::RemoveDir(self.staging_dir()),
                ),
                Event::Exists(false) => (
                    Phase::CreateStaging,
                    Action::CreateDir(self.staging_dir()),
                ),
                other => file_failure_of(FileOp::Read, self.staging_dir(), other),
            },
            Phase::RemoveStaging => match event {
                Event::Done => (Phase::CreateStaging, Action::CreateDir(self.staging_dir())),
                other => file_failure_of(FileOp::Remove, self.staging_dir(), other),
            },
            Phase::CreateStaging => match event {
                Event::Done => (Phase::ListTree, Action::ListDir(self.source_dir.clone())),
                other => file_failure_of(FileOp::Create, self.staging_dir(), other),
            },
            Phase::ListTree => match event {
                Event::Entries(names) => self.stage_from(names, 0),
                other => file_failure_of(FileOp::Read, self.source_dir.clone(), other),
            },
            Phase::ReadSource { names, index } => match event {
                Event::Content(bytes) => {
                    let name = names[index].as_str();
                    let path = join_path(self.staging_dir().as_str(), name);
                    let content = stage_file(name, bytes);
                    (Phase::WriteStaged { names, index }, Action::WriteFile { path, content })
                },
                other => {
                    let path = join_path(self.source_dir.as_str(), names[index].as_str());
                    file_failure_of(FileOp::Read, path, other)
                },
            },
            Phase::WriteStaged { names, index } => match event {
                Event::Done => {
                    assert(index < names.len());
                    self.stage_from(names, index + 1)
                },
                other => {
                    let path = join_path(self.staging_dir().as_str(), names[index].as_str());
                    file_failure_of(FileOp::Write, path, other)
                },
            },
            Phase::ListSources => match event {
                Event::Entries(names) => {
                    let root = self.compile_root();
                    let files = select_sources(root.as_str(), &names);
                    (Phase::Compile, Action::Compile(self.job(files)))
                },
                other => file_failure_of(FileOp::Read, self.compile_root(), other),
            },
            Phase::Compile => match event {
                Event::Done => self.publish_from(0),
                other => (
                    Phase::Stopped,
                    Action::Abort(BuildError::CompileFailure(other.cause())),
                ),
            },
            Phase::CopyHeader { index } => match event {
                Event::Done => self.publish_from(index + 1),
                other => {
                    let name = published_header(index);
                    let from = join_path(self.compile_root().as_str(), name);
                    let to = join_path(self.include_dir().as_str(), name);
                    file_failure_of(FileOp::CopyTo(to), from, other)
                },
            },
            Phase::Stopped => (Phase::Stopped, Action::Halt),
        }
    }
}

impl BuildRun {
    #[verifier::type_invariant]
    spec fn well_formed(self) -> bool {
        self.phase@.well_formed()
    }

    /// Takes the reply to what the run asked for last, and says what is to
    /// be done next.
    pub fn step(self, event: Event) -> (r: (BuildRun, Action))
        ensures
            (r.0@, r.1@) == self@.next(event@),
    {
        proof {
            use_type_invariant(&self);
        }
        let BuildRun { plan, phase } = self;
        let (phase, action) = plan.advance(phase, event);
        (BuildRun { plan, phase }, action)
    }

    /// Whether the run has ended.
    pub fn is_stopped(&self) -> (stopped: bool)
        ensures
            stopped == self@.is_stopped(),
    {
        match self.phase {
            Phase::Stopped => true,
            _ => false,
        }
    }
}

impl Build {
    /// Starts a build of `version` in the surroundings `env`: gives the run
    /// and the first thing it asks for. The build is refused where the
    /// target triple or the output directory is known neither from the
    /// configuration nor from the surroundings, and where no platform fits
    /// the triple.
    pub fn try_build(&self, version: Version, env: &Environment) -> (r: Result<
        (BuildRun, Action),
        BuildError,
    >)
        ensures
            r matches Ok(begun) ==> started(self@, version, env@) == Ok::<
                (BuildRunView, ActionView),
                BuildErrorView,
            >((begun.0@, begun.1@)),
            r matches Err(error) ==> started(self@, version, env@) == Err::<
                (BuildRunView, ActionView),
                BuildErrorView,
            >(error@),
    {
        match self.plan(version, env) {
            Ok(plan) => {
                let action = Action::Probe(plan.include_dir());
                Ok((BuildRun { plan, phase: Phase::ProbeInclude }, action))
            },
            Err(error) => Err(error),
        }
    }

    /// Starts a build of `version` that is known not to be refused.
    pub fn build(&self, version: Version, env: &Environment) -> (begun: (BuildRun, Action))
        requires
            started(self@, version, env@) is Ok,
        ensures
            started(self@, version, env@) == Ok::<(BuildRunView, ActionView), BuildErrorView>(
                (begun.0@, begun.1@),
            ),
    {
        match self.try_build(version, env) {
            Ok(begun) => begun,
            Err(_) => {
                proof {
                    assert(false);
                }
                vstd::pervasive::unreached()
            },
        }
    }
}

/// A step changes nothing in the plan, and keeps every position of the
/// phase within its list.
pub proof fn lemma_step_keeps_plan(run: BuildRunView, event: EventView)
    requires
        run.phase.well_formed(),
    ensures
        run.next(event).0.plan == run.plan,
        run.next(event).0.phase.well_formed(),
{
}

/// A run that has ended stays ended, and asks for nothing more.
pub proof fn lemma_stopped_is_final(run: BuildRunView, event: EventView)
    requires
        run.is_stopped(),
    ensures
        run.next(event) == (run, ActionView::Halt),
{
}

/// A failure ends the run at once: whatever the run was waiting for, the
/// reply that it failed is answered by giving the build up, with the cause
/// in the reason, and nothing is tried again.
pub proof fn lemma_failure_ends_run(run: BuildRunView, cause: Seq<char>)
    requires
        !run.is_stopped(),
    ensures
        run.next(EventView::Failed(cause)).0.is_stopped(),
        match run.next(EventView::Failed(cause)).1 {
            ActionView::Abort(BuildErrorView::Filesystem { cause: given, .. }) => given == cause,
            ActionView::Abort(BuildErrorView::CompileFailure(given)) => given == cause,
            _ => false,
        },
{
}

/// What a build hands over depends on its plan alone: whatever the replies
/// were, a run that succeeds gives the artifacts of its plan. So two builds
/// with the same configuration give the same artifacts.
pub proof fn lemma_artifacts_fixed_by_plan(run: BuildRunView, event: EventView)
    ensures
        run.next(event).1 matches ActionView::Finish(artifacts) ==> artifacts
            == run.plan.artifacts(),
        run.next(event).1 is Finish ==> run.next(event).0.is_stopped(),
{
}

/// The staging directory is made afresh by every build that stages: where
/// it exists it is removed, and in either case it is then created, before
/// anything is listed or written.
pub proof fn lemma_staging_starts_afresh(plan: PlanView)
    ensures
        plan.advance(PhaseView::ProbeStaging, EventView::Exists(true)) == (
            PhaseView::RemoveStaging,
            ActionView::RemoveDir(plan.staging_dir()),
        ),
        plan.advance(PhaseView::RemoveStaging, EventView::Done) == (
            PhaseView::CreateStaging,
            ActionView::CreateDir(plan.staging_dir()),
        ),
        plan.advance(PhaseView::ProbeStaging, EventView::Exists(false)) == (
            PhaseView::CreateStaging,
            ActionView::CreateDir(plan.staging_dir()),
        ),
        plan.advance(PhaseView::CreateStaging, EventView::Done) == (
            PhaseView::ListTree,
            ActionView::ListDir(plan.source_dir),
        ),
{
}

/// A build stages the source tree exactly where the platform's profile asks
/// for it; where it does not, the release's own tree is compiled.
pub proof fn lemma_staging_follows_profile(plan: PlanView)
    ensures
        plan.profile.transform ==> plan.after_include() == (
            PhaseView::ProbeStaging,
            ActionView::Probe(plan.staging_dir()),
        ) && plan.compile_root() == plan.staging_dir(),
        !plan.profile.transform ==> plan.after_include() == (
            PhaseView::ListSources,
            ActionView::ScanDir(plan.source_dir),
        ) && plan.compile_root() == plan.source_dir,
{
}

/// Each entry of the source tree is written into the staging directory
/// under its own name, with the bytes that staging gives it.
pub proof fn lemma_entry_staged(
    plan: PlanView,
    names: Seq<Seq<char>>,
    index: int,
    bytes: Seq<u8>,
)
    requires
        0 <= index < names.len(),
    ensures
        plan.stage_from(names, index) == (
            PhaseView::ReadSource { names, index },
            ActionView::ReadFile(joined(plan.source_dir, names[index])),
        ),
        plan.advance(PhaseView::ReadSource { names, index }, EventView::Content(bytes)) == (
            PhaseView::WriteStaged { names, index },
            ActionView::WriteFile {
                path: joined(plan.staging_dir(), names[index]),
                content: staged(names[index], bytes),
            },
        ),
        plan.advance(PhaseView::WriteStaged { names, index }, EventView::Done)
            == plan.stage_from(names, index + 1),
{
}

} // verus!
