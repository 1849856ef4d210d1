//! One helper process and what was put on disk for it, owned as a unit.
//!
//! A handle holds at most one live process and the artifacts that were made
//! for it: its script and the temporary directory around the script.
//! Whatever it owns leaves it only inside an [`Action::Terminate`] or an
//! [`Action::RemoveArtifact`], and a new process is asked for only once it
//! owns nothing. A launch that fails part-way hands back what it had made.

use crate::protocol::{
    Action, ActionView, Event, EventView, KillOutcome, KillOutcomeView, RemoveOutcome,
    RemoveOutcomeView,
};
use crate::text::concat2;
use vstd::prelude::*;

verus! {

/// The headings under which a handle reports what went wrong.
#[derive(Debug, PartialEq, Eq)]
pub struct FailureLabels {
    pub terminate: String,
    pub remove: String,
    pub temp_dir: String,
    pub write: String,
    pub spawn: String,
}

/// What to launch: the program, the script to write for it first, and the
/// arguments that follow the script's path.
#[derive(Debug, PartialEq, Eq)]
pub struct LaunchSpec {
    pub program: String,
    pub dir_prefix: String,
    pub script_name: String,
    pub script_content: String,
    pub extra_args: Vec<String>,
}

/// `FailureLabels` as the contracts see it.
pub struct FailureLabelsView {
    pub terminate: Seq<char>,
    pub remove: Seq<char>,
    pub temp_dir: Seq<char>,
    pub write: Seq<char>,
    pub spawn: Seq<char>,
}

/// `LaunchSpec` as the contracts see it.
pub struct LaunchSpecView {
    pub program: Seq<char>,
    pub dir_prefix: Seq<char>,
    pub script_name: Seq<char>,
    pub script_content: Seq<char>,
    pub extra_args: Seq<Seq<char>>,
}

impl View for FailureLabels {
    type V = FailureLabelsView;

    open spec fn view(&self) -> FailureLabelsView {
        FailureLabelsView {
            terminate: self.terminate@,
            remove: self.remove@,
            temp_dir: self.temp_dir@,
            write: self.write@,
            spawn: self.spawn@,
        }
    }
}

impl View for LaunchSpec {
    type V = LaunchSpecView;

    open spec fn view(&self) -> LaunchSpecView {
        LaunchSpecView {
            program: self.program@,
            dir_prefix: self.dir_prefix@,
            script_name: self.script_name@,
            script_content: self.script_content@,
            extra_args: self.extra_args.deep_view(),
        }
    }
}

/// The answer that a handle is waiting for.
enum Pending {
    Nothing,
    Kill { restart: Option<LaunchSpec> },
    Remove { restart: Option<LaunchSpec> },
    Cleanup { verdict: String },
    Dir(LaunchSpec),
    Write { launch: LaunchSpec, dir: String },
    Spawn { artifact: String, dir: String },
}

/// The answer that a handle is waiting for, as the contracts see it.
pub enum PendingView {
    /// No operation is under way.
    Nothing,
    /// A process is being terminated; `restart` is what to launch afterwards.
    Kill { restart: Option<LaunchSpecView> },
    /// An artifact is being deleted; `restart` is what to launch afterwards.
    Remove { restart: Option<LaunchSpecView> },
    /// An artifact of a failed launch is being deleted; `verdict` is the
    /// failure that will be reported when all are gone.
    Cleanup { verdict: Seq<char> },
    /// The temporary directory is being created.
    Dir(LaunchSpecView),
    /// The script is being written into the directory `dir`.
    Write { launch: LaunchSpecView, dir: Seq<char> },
    /// The process is being started; `artifact` is the script written for it
    /// and `dir` the directory around the script.
    Spawn { artifact: Seq<char>, dir: Seq<char> },
}

/// A handle as the contracts see it.
pub struct HandleView<P> {
    pub process: Option<P>,
    pub artifacts: Seq<Seq<char>>,
    pub labels: FailureLabelsView,
    pub pending: PendingView,
}

impl<P> HandleView<P> {
    /// Whether nothing is owned: no process and no artifact.
    pub open spec fn owns_nothing(self) -> bool {
        self.process is None && self.artifacts.len() == 0
    }

    /// Whether a launch is under way, between the end of the stop that comes
    /// first and the answer to the spawn.
    pub open spec fn launching(self) -> bool {
        self.pending is Dir || self.pending is Write || self.pending is Spawn
    }

    /// Whether a start is under way: the stop that it begins with, the launch,
    /// or the cleaning up after a launch that failed.
    pub open spec fn starting(self) -> bool {
        ||| self.pending matches PendingView::Kill { restart: Some(_) }
        ||| self.pending matches PendingView::Remove { restart: Some(_) }
        ||| self.pending is Cleanup
        ||| self.launching()
    }

    /// What every handle satisfies: while a launch is under way, nothing is
    /// owned; and while something is being terminated or deleted, no process
    /// is.
    pub open spec fn wf(self) -> bool {
        &&& self.launching() ==> self.owns_nothing()
        &&& self.pending is Kill || self.pending is Remove || self.pending is Cleanup
            ==> self.process is None
    }

    /// The same handle waiting for another answer.
    pub open spec fn with_pending(self, pending: PendingView) -> Self {
        HandleView { pending, ..self }
    }
}

/// The next move of a stop: let go of the process, then of the artifacts one
/// by one, and when nothing is left either finish or, if a launch is to
/// follow, begin it.
pub open spec fn advance_step<P>(s: HandleView<P>, restart: Option<LaunchSpecView>) -> (
    HandleView<P>,
    ActionView<P>,
) {
    if let Some(p) = s.process {
        (
            HandleView { process: None, pending: PendingView::Kill { restart }, ..s },
            ActionView::Terminate(p),
        )
    } else if s.artifacts.len() > 0 {
        (
            HandleView {
                artifacts: s.artifacts.drop_first(),
                pending: PendingView::Remove { restart },
                ..s
            },
            ActionView::RemoveArtifact(s.artifacts[0]),
        )
    } else {
        match restart {
            None => (s.with_pending(PendingView::Nothing), ActionView::Done(Ok(true))),
            Some(launch) => (
                s.with_pending(PendingView::Dir(launch)),
                ActionView::CreateTempDir { prefix: launch.dir_prefix },
            ),
        }
    }
}

/// The first move of a stop. An operation that was under way is given up.
pub open spec fn stop_step<P>(s: HandleView<P>) -> (HandleView<P>, ActionView<P>) {
    advance_step(s, None)
}

/// The first move of a start: a full stop comes first. An operation that was
/// under way is given up.
pub open spec fn start_step<P>(s: HandleView<P>, launch: LaunchSpecView) -> (
    HandleView<P>,
    ActionView<P>,
) {
    advance_step(s, Some(launch))
}

/// The end of an operation with a failure: `label` followed by `detail`.
pub open spec fn fail_step<P>(s: HandleView<P>, label: Seq<char>, detail: Seq<char>) -> (
    HandleView<P>,
    ActionView<P>,
) {
    (s.with_pending(PendingView::Nothing), ActionView::Done(Err(label + detail)))
}

/// The next move after a launch has failed: what it had made is let go, one
/// artifact at a time, and then the failure `verdict` is reported.
pub open spec fn cleanup_step<P>(s: HandleView<P>, verdict: Seq<char>) -> (
    HandleView<P>,
    ActionView<P>,
) {
    if s.artifacts.len() > 0 {
        (
            HandleView {
                artifacts: s.artifacts.drop_first(),
                pending: PendingView::Cleanup { verdict },
                ..s
            },
            ActionView::RemoveArtifact(s.artifacts[0]),
        )
    } else {
        (s.with_pending(PendingView::Nothing), ActionView::Done(Err(verdict)))
    }
}

/// The move that follows an event.
///
/// A process that has already exited counts as terminated and an artifact
/// that is missing counts as deleted; any other failure to terminate or to
/// delete ends the operation and is reported. A launch creates its
/// directory, writes its script and starts its process, in this order; when
/// the process is there, the handle owns it together with the script and the
/// directory. A launch that fails after it has made something lets go of
/// that first, whatever the host reports of the deletions, and then reports
/// why it failed.
pub open spec fn resume_step<P>(s: HandleView<P>, event: EventView<P>) -> (
    HandleView<P>,
    ActionView<P>,
) {
    match (s.pending, event) {
        (PendingView::Kill { restart }, EventView::Terminated(outcome)) => match outcome {
            KillOutcomeView::Failed(e) => fail_step(s, s.labels.terminate, e),
            _ => advance_step(s, restart),
        },
        (PendingView::Remove { restart }, EventView::ArtifactRemoved(outcome)) => match outcome {
            RemoveOutcomeView::Failed(e) => fail_step(s, s.labels.remove, e),
            _ => advance_step(s, restart),
        },
        (PendingView::Cleanup { verdict }, EventView::ArtifactRemoved(_)) => cleanup_step(
            s,
            verdict,
        ),
        (PendingView::Dir(launch), EventView::DirCreated(created)) => match created {
            Ok(dir) => (
                s.with_pending(PendingView::Write { launch, dir }),
                ActionView::WriteArtifact {
                    dir,
                    name: launch.script_name,
                    content: launch.script_content,
                },
            ),
            Err(e) => fail_step(s, s.labels.temp_dir, e),
        },
        (PendingView::Write { launch, dir }, EventView::ArtifactWritten(written)) => match written {
            Ok(path) => (
                s.with_pending(PendingView::Spawn { artifact: path, dir }),
                ActionView::Spawn { program: launch.program, args: seq![path] + launch.extra_args },
            ),
            Err(e) => cleanup_step(HandleView { artifacts: seq![dir], ..s }, s.labels.write + e),
        },
        (PendingView::Spawn { artifact, dir }, EventView::Spawned(spawned)) => match spawned {
            Ok(p) => (
                HandleView {
                    process: Some(p),
                    artifacts: seq![artifact, dir],
                    pending: PendingView::Nothing,
                    ..s
                },
                ActionView::Done(Ok(true)),
            ),
            Err(e) => cleanup_step(
                HandleView { artifacts: seq![artifact, dir], ..s },
                s.labels.spawn + e,
            ),
        },
        _ => (s, ActionView::Rejected(event)),
    }
}

/// A helper process together with the artifacts written for it.
pub struct HelperProcessHandle<P> {
    process: Option<P>,
    artifacts: Vec<String>,
    labels: FailureLabels,
    pending: Pending,
}

impl View for Pending {
    type V = PendingView;

    closed spec fn view(&self) -> PendingView {
        match self {
            Pending::Nothing => PendingView::Nothing,
            Pending::Kill { restart } => PendingView::Kill {
                restart: match restart {
                    Some(l) => Some(l@),
                    None => None,
                },
            },
            Pending::Remove { restart } => PendingView::Remove {
                restart: match restart {
                    Some(l) => Some(l@),
                    None => None,
                },
            },
            Pending::Cleanup { verdict } => PendingView::Cleanup { verdict: verdict@ },
            Pending::Dir(l) => PendingView::Dir(l@),
            Pending::Write { launch, dir } => PendingView::Write { launch: launch@, dir: dir@ },
            Pending::Spawn { artifact, dir } => PendingView::Spawn {
                artifact: artifact@,
                dir: dir@,
            },
        }
    }
}

impl<P> View for HelperProcessHandle<P> {
    type V = HandleView<P>;

    closed spec fn view(&self) -> HandleView<P> {
        HandleView {
            process: self.process,
            artifacts: self.artifacts.deep_view(),
            labels: self.labels@,
            pending: self.pending@,
        }
    }
}

impl<P> HelperProcessHandle<P> {
    #[verifier::type_invariant]
    spec fn well_formed(&self) -> bool {
        self@.wf()
    }

    /// A handle that owns nothing and reports failures under `labels`.
    pub fn new(labels: FailureLabels) -> (handle: Self)
        ensures
            handle@.owns_nothing(),
            handle@.pending is Nothing,
            handle@.labels == labels@,
    {
        let handle = Self {
            process: None,
            artifacts: Vec::new(),
            labels,
            pending: Pending::Nothing,
        };
        handle
    }

    /// Whether a process is owned. This says nothing of whether that process
    /// is still alive.
    pub fn is_running(&self) -> (running: bool)
        ensures
            running == self@.process is Some,
    {
        self.process.is_some()
    }

    /// Whether an operation is under way, that is, an answer is awaited.
    pub fn is_busy(&self) -> (busy: bool)
        ensures
            busy == !(self@.pending is Nothing),
    {
        match &self.pending {
            Pending::Nothing => false,
            _ => true,
        }
    }

    /// The artifacts owned, in the order in which they will be deleted.
    pub fn artifacts(&self) -> (paths: &Vec<String>)
        ensures
            paths.deep_view() == self@.artifacts,
    {
        &self.artifacts
    }

    fn advance(&mut self, restart: Option<LaunchSpec>) -> (action: Action<P>)
        ensures
            (final(self)@, action@) == advance_step(
                old(self)@,
                match restart {
                    Some(l) => Some(l@),
                    None => None,
                },
            ),
    {
        proof {
            use_type_invariant(&*self);
        }
        let mut process: Option<P> = None;
        core::mem::swap(&mut self.process, &mut process);
        if let Some(p) = process {
            self.pending = Pending::Kill { restart };
            return Action::Terminate(p);
        }
        let mut artifacts: Vec<String> = Vec::new();
        core::mem::swap(&mut self.artifacts, &mut artifacts);
        if artifacts.len() > 0 {
            let path = artifacts.remove(0);
            core::mem::swap(&mut self.artifacts, &mut artifacts);
            self.pending = Pending::Remove { restart };
            assert(self.artifacts.deep_view() =~= old(self).artifacts.deep_view().drop_first());
            return Action::RemoveArtifact(path);
        }
        assert(self.artifacts.deep_view() =~= old(self).artifacts.deep_view());
        match restart {
            None => {
                self.pending = Pending::Nothing;
                Action::Done(Ok(true))
            },
            Some(launch) => {
                let prefix = launch.dir_prefix.clone();
                self.pending = Pending::Dir(launch);
                Action::CreateTempDir { prefix }
            },
        }
    }

    fn fail(&mut self, label: String, detail: String) -> (action: Action<P>)
        ensures
            (final(self)@, action@) == fail_step(old(self)@, label@, detail@),
    {
        self.pending = Pending::Nothing;
        Action::Done(Err(concat2(label.as_str(), detail.as_str())))
    }

    fn cleanup(&mut self, made: Vec<String>, verdict: String) -> (action: Action<P>)
        requires
            old(self)@.process is None,
        ensures
            (final(self)@, action@) == cleanup_step(
                HandleView { artifacts: made.deep_view(), ..old(self)@ },
                verdict@,
            ),
    {
        let mut artifacts = made;
        if artifacts.len() > 0 {
            let path = artifacts.remove(0);
            assert(artifacts.deep_view() =~= made.deep_view().drop_first());
            self.pending = Pending::Cleanup { verdict };
            core::mem::swap(&mut self.artifacts, &mut artifacts);
            Action::RemoveArtifact(path)
        } else {
            self.pending = Pending::Nothing;
            core::mem::swap(&mut self.artifacts, &mut artifacts);
            Action::Done(Err(verdict))
        }
    }

    /// Begins a stop: whatever is owned is let go, the process first, then
    /// the artifacts in order. With nothing owned the stop is over at once,
    /// with success and without any action for the host.
    pub fn stop(&mut self) -> (action: Action<P>)
        ensures
            (final(self)@, action@) == stop_step(old(self)@),
            final(self)@.wf(),
            !(action@ is Spawn),
    {
        let action = self.advance(None);
        proof {
            use_type_invariant(&*self);
        }
        action
    }

    /// Begins a start. What is owned from an earlier start is let go first,
    /// exactly as by `stop`; only then is the launch begun.
    pub fn start(&mut self, launch: LaunchSpec) -> (action: Action<P>)
        ensures
            (final(self)@, action@) == start_step(old(self)@, launch@),
            final(self)@.wf(),
            !(action@ is Spawn),
    {
        let action = self.advance(Some(launch));
        proof {
            use_type_invariant(&*self);
        }
        action
    }

    /// Takes the host's answer to the last action and gives the next one. A
    /// process is asked for only while nothing is owned.
    pub fn resume(&mut self, event: Event<P>) -> (action: Action<P>)
        ensures
            (final(self)@, action@) == resume_step(old(self)@, event@),
            old(self)@.wf(),
            final(self)@.wf(),
            action@ is Spawn ==> old(self)@.owns_nothing() && final(self)@.owns_nothing(),
    {
        proof {
            use_type_invariant(&*self);
        }
        let mut pending = Pending::Nothing;
        core::mem::swap(&mut self.pending, &mut pending);
        let action = match (pending, event) {
            (Pending::Kill { restart }, Event::Terminated(outcome)) => match outcome {
                KillOutcome::Failed(e) => {
                    let label = self.labels.terminate.clone();
                    self.fail(label, e)
                },
                _ => self.advance(restart),
            },
            (Pending::Remove { restart }, Event::ArtifactRemoved(outcome)) => match outcome {
                RemoveOutcome::Failed(e) => {
                    let label = self.labels.remove.clone();
                    self.fail(label, e)
                },
                _ => self.advance(restart),
            },
            (Pending::Cleanup { verdict }, Event::ArtifactRemoved(_)) => {
                let mut rest: Vec<String> = Vec::new();
                core::mem::swap(&mut self.artifacts, &mut rest);
                self.cleanup(rest, verdict)
            },
            (Pending::Dir(launch), Event::DirCreated(created)) => match created {
                Ok(dir) => {
                    let name = launch.script_name.clone();
                    let content = launch.script_content.clone();
                    let action = Action::WriteArtifact { dir: dir.clone(), name, content };
                    self.pending = Pending::Write { launch, dir };
                    action
                },
                Err(e) => {
                    let label = self.labels.temp_dir.clone();
                    self.fail(label, e)
                },
            },
            (Pending::Write { launch, dir }, Event::ArtifactWritten(written)) => match written {
                Ok(path) => {
                    let LaunchSpec { program, extra_args, .. } = launch;
                    let mut args: Vec<String> = Vec::new();
                    args.push(path.clone());
                    let mut rest = extra_args;
                    args.append(&mut rest);
                    assert(args.deep_view() =~= seq![path@] + extra_args.deep_view());
                    self.pending = Pending::Spawn { artifact: path, dir };
                    Action::Spawn { program, args }
                },
                Err(e) => {
                    let verdict = concat2(self.labels.write.as_str(), e.as_str());
                    let mut made: Vec<String> = Vec::new();
                    made.push(dir);
                    assert(made.deep_view() =~= seq![dir@]);
                    self.cleanup(made, verdict)
                },
            },
            (Pending::Spawn { artifact, dir }, Event::Spawned(spawned)) => {
                let mut made: Vec<String> = Vec::new();
                made.push(artifact);
                made.push(dir);
                assert(made.deep_view() =~= seq![artifact@, dir@]);
                match spawned {
                    Ok(p) => {
                        self.process = Some(p);
                        self.artifacts = made;
                        Action::Done(Ok(true))
                    },
                    Err(e) => {
                        let verdict = concat2(self.labels.spawn.as_str(), e.as_str());
                        self.cleanup(made, verdict)
                    },
                }
            },
            (pending, event) => {
                self.pending = pending;
                Action::Rejected(event)
            },
        };
        proof {
            use_type_invariant(&*self);
        }
        action
    }
}

/// Every move leads from a well-formed handle to a well-formed one.
pub proof fn lemma_steps_preserve_wf<P>(
    s: HandleView<P>,
    launch: LaunchSpecView,
    event: EventView<P>,
)
    requires
        s.wf(),
    ensures
        stop_step(s).0.wf(),
        start_step(s, launch).0.wf(),
        resume_step(s, event).0.wf(),
{
}

/// No move asks for a new process while anything is owned, and neither a
/// stop nor the first move of a start asks for one at all.
pub proof fn lemma_spawn_only_when_nothing_owned<P>(
    s: HandleView<P>,
    launch: LaunchSpecView,
    event: EventView<P>,
)
    requires
        s.wf(),
    ensures
        !(stop_step(s).1 is Spawn),
        !(start_step(s, launch).1 is Spawn),
        resume_step(s, event).1 is Spawn ==> s.owns_nothing() && resume_step(
            s,
            event,
        ).0.owns_nothing(),
{
}

/// A stop on a handle that owns nothing succeeds at once, asks nothing of the
/// host and leaves the handle as it was. And when a stop has ended with
/// success, the handle owns nothing, so that a second stop is of that kind.
pub proof fn lemma_stop_twice<P>(s: HandleView<P>, event: EventView<P>)
    ensures
        s.owns_nothing() ==> stop_step(s) == (
            s.with_pending(PendingView::Nothing),
            ActionView::<P>::Done(Ok(true)),
        ),
        stop_step(s).1 is Done ==> stop_step(stop_step(s).0) == stop_step(s),
        ({
            let stopping = s.pending == PendingView::Kill { restart: None } || s.pending
                == PendingView::Remove { restart: None };
            let (after, action) = resume_step(s, event);
            stopping && action == ActionView::<P>::Done(Ok(true)) ==> after.owns_nothing()
                && stop_step(after) == (after, ActionView::<P>::Done(Ok(true)))
        }),
{
}

/// The handle after the host has reported `events` one after the other,
/// and the actions that it was given in answer.
pub open spec fn run<P>(s: HandleView<P>, events: Seq<EventView<P>>) -> (
    HandleView<P>,
    Seq<ActionView<P>>,
)
    decreases events.len(),
{
    if events.len() == 0 {
        (s, Seq::empty())
    } else {
        let (mid, actions) = run(s, events.drop_last());
        let (next, action) = resume_step(mid, events.last());
        (next, actions.push(action))
    }
}

/// How far the artifacts `owned` at the beginning of a start have been let
/// go: the first `released` of them have been handed to the host for
/// deletion in `asked`, and the handle `s` still owns the rest, unless all
/// are gone.
pub open spec fn released_up_to<P>(
    owned: Seq<Seq<char>>,
    s: HandleView<P>,
    asked: Seq<ActionView<P>>,
    released: int,
) -> bool {
    &&& 0 <= released <= owned.len()
    &&& forall|i: int|
        0 <= i < released ==> asked.contains(ActionView::<P>::RemoveArtifact(#[trigger] owned[i]))
    &&& s.artifacts == owned.skip(released) || released == owned.len()
}

proof fn lemma_contains_after_push<A>(actions: Seq<A>, action: A, wanted: A)
    requires
        actions.contains(wanted),
    ensures
        actions.push(action).contains(wanted),
{
    let j = choose|j: int| 0 <= j < actions.len() && actions[j] == wanted;
    assert(actions.push(action)[j] == wanted);
}

proof fn lemma_release_step<P>(
    owned: Seq<Seq<char>>,
    s: HandleView<P>,
    asked: Seq<ActionView<P>>,
    released: int,
    event: EventView<P>,
) -> (next_released: int)
    requires
        s.wf(),
        released_up_to(owned, s, asked, released),
    ensures
        released_up_to(
            owned,
            resume_step(s, event).0,
            asked.push(resume_step(s, event).1),
            next_released,
        ),
        resume_step(s, event).0.wf(),
        resume_step(s, event).1 is Spawn ==> released == owned.len(),
{
    let (next, action) = resume_step(s, event);
    let grown = asked.push(action);
    assert forall|i: int| 0 <= i < released implies grown.contains(
        ActionView::<P>::RemoveArtifact(#[trigger] owned[i]),
    ) by {
        lemma_contains_after_push(asked, action, ActionView::<P>::RemoveArtifact(owned[i]));
    }
    if released < owned.len() && action is RemoveArtifact && s.artifacts.len() > 0
        && next.artifacts == s.artifacts.drop_first() {
        assert(grown[asked.len() as int] == ActionView::<P>::RemoveArtifact(owned[released]));
        assert(owned.skip(released).drop_first() =~= owned.skip(released + 1));
        released + 1
    } else {
        released
    }
}

proof fn lemma_release_run<P>(
    owned: Seq<Seq<char>>,
    s: HandleView<P>,
    asked: Seq<ActionView<P>>,
    released: int,
    events: Seq<EventView<P>>,
) -> (end_released: int)
    requires
        s.wf(),
        released_up_to(owned, s, asked, released),
    ensures
        run(s, events).0.wf(),
        run(s, events).1.len() == events.len(),
        released_up_to(owned, run(s, events).0, asked + run(s, events).1, end_released),
        forall|k: int, i: int|
            0 <= k < events.len() && (#[trigger] run(s, events).1[k]) is Spawn && 0 <= i
                < owned.len() ==> (asked + run(s, events).1.take(k)).contains(
                ActionView::<P>::RemoveArtifact(#[trigger] owned[i]),
            ),
    decreases events.len(),
{
    if events.len() == 0 {
        released
    } else {
        let shorter = events.drop_last();
        let mid_released = lemma_release_run(owned, s, asked, released, shorter);
        let (mid, actions) = run(s, shorter);
        let (next, action) = resume_step(mid, events.last());
        let end_released = lemma_release_step(
            owned,
            mid,
            asked + actions,
            mid_released,
            events.last(),
        );
        let all = actions.push(action);
        assert forall|k: int, i: int|
            0 <= k < events.len() && (#[trigger] all[k]) is Spawn && 0 <= i
                < owned.len() implies (asked + all.take(k)).contains(
            ActionView::<P>::RemoveArtifact(#[trigger] owned[i]),
        ) by {
            if k < actions.len() {
                assert(all.take(k) =~= actions.take(k));
            } else {
                assert(all.take(k) =~= actions);
            }
        }
        end_released
    }
}

/// Nothing leaks across a restart. Take a start on a handle that owns a
/// process, artifacts or both, and any reports whatever from the host. Then
/// the owned process is handed over for termination by the very first action,
/// and by the time a new process is asked for, every owned artifact has been
/// handed over for deletion.
pub proof fn lemma_restart_releases_first<P>(
    s: HandleView<P>,
    launch: LaunchSpecView,
    events: Seq<EventView<P>>,
)
    requires
        s.wf(),
    ensures
        s.process matches Some(p) ==> start_step(s, launch).1 == ActionView::Terminate(p),
        !(start_step(s, launch).1 is Spawn),
        forall|k: int, i: int|
            0 <= k < events.len() && (#[trigger] run(start_step(s, launch).0, events).1[k]) is Spawn
                && 0 <= i < s.artifacts.len() ==> (seq![start_step(s, launch).1] + run(
                start_step(s, launch).0,
                events,
            ).1.take(k)).contains(ActionView::<P>::RemoveArtifact(#[trigger] s.artifacts[i])),
{
    let (first, action) = start_step(s, launch);
    let asked = seq![action];
    let owned = s.artifacts;
    let released: int = if s.process is None && owned.len() > 0 {
        1
    } else {
        0
    };
    assert(owned.skip(0) =~= owned);
    if released == 1 {
        assert(asked[0] == ActionView::<P>::RemoveArtifact(owned[0]));
    }
    lemma_release_run(owned, first, asked, released, events);
}

/// What a stop hands over when the host reports success each time: the
/// process, if one is owned, and then every artifact in order.
pub open spec fn release_plan<P>(s: HandleView<P>) -> Seq<ActionView<P>> {
    let artifacts = Seq::new(
        s.artifacts.len(),
        |i: int| ActionView::<P>::RemoveArtifact(s.artifacts[i]),
    );
    match s.process {
        Some(p) => seq![ActionView::Terminate(p)] + artifacts,
        None => artifacts,
    }
}

/// Whether `events` are the reports of a host that carries out a stop of
/// `s` without a failure: one on the process, if one is owned, and then one
/// on each artifact.
pub open spec fn reports_success<P>(s: HandleView<P>, events: Seq<EventView<P>>) -> bool {
    let lead: int = if s.process is Some {
        1
    } else {
        0
    };
    &&& events.len() == lead + s.artifacts.len()
    &&& lead == 1 ==> reports_termination(events[0])
    &&& forall|k: int| lead <= k < events.len() ==> reports_removal(#[trigger] events[k])
}

/// Whether `event` reports that a process is gone: terminated now, or
/// found to have exited before.
pub open spec fn reports_termination<P>(event: EventView<P>) -> bool {
    event matches EventView::Terminated(outcome) && !(outcome is Failed)
}

/// Whether `event` reports that an artifact is gone: deleted now, or found
/// missing.
pub open spec fn reports_removal<P>(event: EventView<P>) -> bool {
    event matches EventView::ArtifactRemoved(outcome) && !(outcome is Failed)
}

/// Running on `events` is one move on the first of them and a run on the
/// rest.
pub proof fn lemma_run_unfolds_at_front<P>(s: HandleView<P>, events: Seq<EventView<P>>)
    requires
        events.len() > 0,
    ensures
        run(s, events).0 == run(resume_step(s, events[0]).0, events.drop_first()).0,
        run(s, events).1 == seq![resume_step(s, events[0]).1] + run(
            resume_step(s, events[0]).0,
            events.drop_first(),
        ).1,
    decreases events.len(),
{
    if events.len() == 1 {
        assert(run(s, events.drop_last()) == (s, Seq::<ActionView<P>>::empty()));
    } else {
        lemma_run_unfolds_at_front(s, events.drop_last());
        assert(events.drop_last().drop_first() =~= events.drop_first().drop_last());
    }
}

/// A stop that meets no failure lets go of everything: the host is handed
/// the owned process and then each owned artifact, in order; the stop ends
/// with success; and the handle owns nothing. Giving up the owner of a
/// handle is such a stop whose result nobody looks at.
pub proof fn lemma_stop_releases_everything<P>(s: HandleView<P>, events: Seq<EventView<P>>)
    requires
        reports_success(s, events),
    ensures
        seq![stop_step(s).1] + run(stop_step(s).0, events).1 == release_plan(s).push(
            ActionView::<P>::Done(Ok(true)),
        ),
        run(stop_step(s).0, events).0.owns_nothing(),
        run(stop_step(s).0, events).0.pending is Nothing,
    decreases events.len(),
{
    if events.len() > 0 {
        let rest = if s.process is Some {
            HandleView { process: None, ..s }
        } else {
            HandleView { artifacts: s.artifacts.drop_first(), ..s }
        };
        let later = events.drop_first();
        assert(reports_success(rest, later));
        lemma_stop_releases_everything(rest, later);
        lemma_run_unfolds_at_front(stop_step(s).0, events);
    }
}

/// A launch that fails leaves nothing behind. When the process cannot be
/// started, the script and then its directory are handed over for deletion
/// before the failure is reported; when the script cannot be written, the
/// directory is. Whatever the host reports of the deletions, the failure
/// reported is that of the launch, and the handle owns nothing at the end.
pub proof fn lemma_failed_launch_cleans_up<P>(
    s: HandleView<P>,
    e: Seq<char>,
    first: RemoveOutcomeView,
    second: RemoveOutcomeView,
)
    requires
        s.wf(),
    ensures
        s.pending matches PendingView::Spawn { artifact, dir } ==> ({
            let (s1, a1) = resume_step(s, EventView::Spawned(Err(e)));
            let (s2, a2) = resume_step(s1, EventView::ArtifactRemoved(first));
            let (s3, a3) = resume_step(s2, EventView::ArtifactRemoved(second));
            &&& a1 == ActionView::<P>::RemoveArtifact(artifact)
            &&& a2 == ActionView::<P>::RemoveArtifact(dir)
            &&& a3 == ActionView::<P>::Done(Err(s.labels.spawn + e))
            &&& s3.owns_nothing()
            &&& s3.pending is Nothing
        }),
        s.pending matches PendingView::Write { launch, dir } ==> ({
            let (s1, a1) = resume_step(s, EventView::ArtifactWritten(Err(e)));
            let (s2, a2) = resume_step(s1, EventView::ArtifactRemoved(first));
            &&& a1 == ActionView::<P>::RemoveArtifact(dir)
            &&& a2 == ActionView::<P>::Done(Err(s.labels.write + e))
            &&& s2.owns_nothing()
            &&& s2.pending is Nothing
        }),
{
}

/// A stop that follows a start tears down exactly what that start made:
/// once the process is reported, the handle owns it together with the script
/// and the directory of this launch, and a stop hands over these three, in
/// this order, and nothing else.
pub proof fn lemma_stop_observes_what_start_made<P>(s: HandleView<P>, p: P)
    requires
        s.wf(),
        s.pending is Spawn,
    ensures
        ({
            let (started, action) = resume_step(s, EventView::Spawned(Ok(p)));
            &&& action == ActionView::<P>::Done(Ok(true))
            &&& started.process == Some(p)
            &&& started.artifacts == seq![s.pending->Spawn_artifact, s.pending->Spawn_dir]
            &&& release_plan(started) == seq![
                ActionView::Terminate(p),
                ActionView::RemoveArtifact(s.pending->Spawn_artifact),
                ActionView::RemoveArtifact(s.pending->Spawn_dir),
            ]
        }),
{
    let started = resume_step(s, EventView::Spawned(Ok(p))).0;
    assert(release_plan(started) =~= seq![
        ActionView::Terminate(p),
        ActionView::RemoveArtifact(s.pending->Spawn_artifact),
        ActionView::RemoveArtifact(s.pending->Spawn_dir),
    ]);
}

/// How far an operation is from its end: the rank of what the handle waits
/// for, which never rises, and, while artifacts are being deleted, how many
/// are left.
pub open spec fn distance<P>(s: HandleView<P>) -> (nat, nat) {
    match s.pending {
        PendingView::Kill { .. } => (6, 0),
        PendingView::Remove { .. } => (5, s.artifacts.len()),
        PendingView::Dir(_) => (4, 0),
        PendingView::Write { .. } => (3, 0),
        PendingView::Spawn { .. } => (2, 0),
        PendingView::Cleanup { .. } => (1, s.artifacts.len()),
        PendingView::Nothing => (0, 0),
    }
}

/// Whether the distance `a` is shorter than the distance `b`.
pub open spec fn shorter(a: (nat, nat), b: (nat, nat)) -> bool {
    a.0 < b.0 || (a.0 == b.0 && a.1 < b.1)
}

/// Nothing is tried twice: every event that is taken brings the operation
/// closer to its end. An event that is not taken is handed back and leaves
/// the handle as it was. And an operation has ended exactly when the handle
/// waits for nothing.
pub proof fn lemma_operation_never_turns_back<P>(s: HandleView<P>, event: EventView<P>)
    requires
        s.wf(),
    ensures
        resume_step(s, event).1 is Rejected ==> resume_step(s, event).0 == s,
        !(resume_step(s, event).1 is Rejected) ==> shorter(
            distance(resume_step(s, event).0),
            distance(s),
        ),
        resume_step(s, event).1 is Done <==> resume_step(s, event).0.pending is Nothing && !(
        s.pending is Nothing),
{
}

} // verus!
