//! The vocabulary between a supervisor and its host.
//!
//! A supervisor never touches the operating system. It answers every call
//! with an [`Action`] that the host is to carry out, and the host reports
//! back with the [`Event`] that tells how it went. The exchange ends with
//! [`Action::Done`].

use vstd::prelude::*;

verus! {

/// How an attempt to terminate a process went.
#[derive(Debug, PartialEq, Eq)]
pub enum KillOutcome {
    /// The process was running and has been terminated.
    Killed,
    /// The process had already exited.
    AlreadyExited,
    /// The process could not be terminated; the text says why.
    Failed(String),
}

/// How an attempt to delete an artifact, a file or a directory, went.
#[derive(Debug, PartialEq, Eq)]
pub enum RemoveOutcome {
    /// The artifact was there and has been deleted.
    Removed,
    /// The artifact was no longer there.
    Missing,
    /// The artifact is there and could not be deleted; the text says why.
    Failed(String),
}

/// What the host reports after carrying out an action. `P` is whatever the
/// host uses to hold a live process.
#[derive(Debug, PartialEq, Eq)]
pub enum Event<P> {
    /// Answer to [`Action::Locate`]: the interpreter's path, or why there is none.
    Located(Result<String, String>),
    /// Answer to [`Action::ProbeFile`]: whether the file exists.
    Probed(bool),
    /// Answer to [`Action::Terminate`].
    Terminated(KillOutcome),
    /// Answer to [`Action::RemoveArtifact`].
    ArtifactRemoved(RemoveOutcome),
    /// Answer to [`Action::CreateTempDir`]: the directory's path, or why there is none.
    DirCreated(Result<String, String>),
    /// Answer to [`Action::WriteArtifact`]: the written file's path, or why it was not written.
    ArtifactWritten(Result<String, String>),
    /// Answer to [`Action::Spawn`]: the live process, or why there is none.
    Spawned(Result<P, String>),
}

/// What a supervisor asks its host to do next.
#[derive(Debug, PartialEq, Eq)]
pub enum Action<P> {
    /// Resolve the interpreter's executable.
    Locate,
    /// Find out whether this file exists.
    ProbeFile(String),
    /// Terminate this process; the supervisor has let go of it.
    Terminate(P),
    /// Delete this file, or this directory with what is in it, if it is there;
    /// the supervisor has let go of it.
    RemoveArtifact(String),
    /// Create a fresh, uniquely named temporary directory that stays until it
    /// is deleted on request.
    CreateTempDir { prefix: String },
    /// Write `content` to the file `name` inside `dir`.
    WriteArtifact { dir: String, name: String, content: String },
    /// Start `program` with `args`.
    Spawn { program: String, args: Vec<String> },
    /// The operation has ended with this result.
    Done(Result<bool, String>),
    /// The event answers no pending action; it is handed back untouched and the
    /// supervisor has not moved.
    Rejected(Event<P>),
}

/// `KillOutcome` as the contracts see it.
pub enum KillOutcomeView {
    Killed,
    AlreadyExited,
    Failed(Seq<char>),
}

/// `RemoveOutcome` as the contracts see it.
pub enum RemoveOutcomeView {
    Removed,
    Missing,
    Failed(Seq<char>),
}

/// `Event` as the contracts see it.
pub enum EventView<P> {
    Located(Result<Seq<char>, Seq<char>>),
    Probed(bool),
    Terminated(KillOutcomeView),
    ArtifactRemoved(RemoveOutcomeView),
    DirCreated(Result<Seq<char>, Seq<char>>),
    ArtifactWritten(Result<Seq<char>, Seq<char>>),
    Spawned(Result<P, Seq<char>>),
}

/// `Action` as the contracts see it.
pub enum ActionView<P> {
    Locate,
    ProbeFile(Seq<char>),
    Terminate(P),
    RemoveArtifact(Seq<char>),
    CreateTempDir { prefix: Seq<char> },
    WriteArtifact { dir: Seq<char>, name: Seq<char>, content: Seq<char> },
    Spawn { program: Seq<char>, args: Seq<Seq<char>> },
    Done(Result<bool, Seq<char>>),
    Rejected(EventView<P>),
}

/// A result of texts, seen as a result of character sequences.
pub open spec fn text_result(r: Result<String, String>) -> Result<Seq<char>, Seq<char>> {
    match r {
        Ok(t) => Ok(t@),
        Err(e) => Err(e@),
    }
}

impl View for KillOutcome {
    type V = KillOutcomeView;

    open spec fn view(&self) -> KillOutcomeView {
        match self {
            KillOutcome::Killed => KillOutcomeView::Killed,
            KillOutcome::AlreadyExited => KillOutcomeView::AlreadyExited,
            KillOutcome::Failed(e) => KillOutcomeView::Failed(e@),
        }
    }
}

impl View for RemoveOutcome {
    type V = RemoveOutcomeView;

    open spec fn view(&self) -> RemoveOutcomeView {
        match self {
            RemoveOutcome::Removed => RemoveOutcomeView::Removed,
            RemoveOutcome::Missing => RemoveOutcomeView::Missing,
            RemoveOutcome::Failed(e) => RemoveOutcomeView::Failed(e@),
        }
    }
}

impl<P> View for Event<P> {
    type V = EventView<P>;

    open spec fn view(&self) -> EventView<P> {
        match self {
            Event::Located(r) => EventView::Located(text_result(*r)),
            Event::Probed(b) => EventView::Probed(*b),
            Event::Terminated(o) => EventView::Terminated(o@),
            Event::ArtifactRemoved(o) => EventView::ArtifactRemoved(o@),
            Event::DirCreated(r) => EventView::DirCreated(text_result(*r)),
            Event::ArtifactWritten(r) => EventView::ArtifactWritten(text_result(*r)),
            Event::Spawned(r) => EventView::Spawned(
                match r {
                    Ok(p) => Ok(*p),
                    Err(e) => Err(e@),
                },
            ),
        }
    }
}

impl<P> View for Action<P> {
    type V = ActionView<P>;

    open spec fn view(&self) -> ActionView<P> {
        match self {
            Action::Locate => ActionView::Locate,
            Action::ProbeFile(p) => ActionView::ProbeFile(p@),
            Action::Terminate(p) => ActionView::Terminate(*p),
            Action::RemoveArtifact(p) => ActionView::RemoveArtifact(p@),
            Action::CreateTempDir { prefix } => ActionView::CreateTempDir { prefix: prefix@ },
            Action::WriteArtifact { dir, name, content } => ActionView::WriteArtifact {
                dir: dir@,
                name: name@,
                content: content@,
            },
            Action::Spawn { program, args } => ActionView::Spawn {
                program: program@,
                args: args.deep_view(),
            },
            Action::Done(r) => ActionView::Done(
                match r {
                    Ok(b) => Ok(*b),
                    Err(e) => Err(e@),
                },
            ),
            Action::Rejected(e) => ActionView::Rejected(e@),
        }
    }
}

} // verus!
