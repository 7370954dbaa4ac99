//! The three operations of the file service, as decisions over the results
//! of the filesystem calls that the host makes.
//!
//! Reading: the host reads the file as text and hands the result to
//! [`finish_read`]. Existence: the host asks whether the path exists and
//! whether it is a regular file, and [`exists_as_file`] gives the answer.
//! Saving: the host runs [`save_step`] from [`SavePhase::ProbingParent`],
//! performs each action that it returns and hands back the event, until the
//! action is [`SaveAction::Finish`].
//!
//! Failures travel as a short message in the error channel; [`SaveResult`]
//! keeps its `error` field only so that the value crossing the command
//! boundary keeps its shape. Comparing the size on disk with the bytes
//! written after a save is a diagnostic: a mismatch is for the log and does
//! not turn a completed write into a failure.
use vstd::prelude::*;

use crate::diagnostics::{format_user_message, user_message, IoFailure};
use crate::naming::{display_name, file_name, PathStyle};
use crate::records::{FileInfo, SaveResult};

verus! {

/// The outcome of reading `path`, given what reading it as text returned;
/// `style` is how the platform separates the segments of a path.
pub fn finish_read(style: PathStyle, path: String, read: Result<String, IoFailure>) -> (r: Result<FileInfo, String>)
    ensures
        match read {
            Ok(content) => {
                &&& r is Ok
                &&& r->Ok_0.path@ == path@
                &&& r->Ok_0.content@ == content@
                &&& r->Ok_0.name@ == display_name(style, path@)
            },
            Err(e) => r is Err && r->Err_0@ == user_message("Failed to read file: "@, e),
        },
{
    match read {
        Ok(content) => {
            let name = file_name(style, path.as_str());
            Ok(FileInfo { path, content, name })
        },
        Err(e) => Err(format_user_message("Failed to read file: ", &e)),
    }
}

/// Whether a path names an existing regular file, given whether it exists
/// at all and whether it is a regular file.
pub fn exists_as_file(exists: bool, is_file: bool) -> (r: bool)
    ensures
        r == (exists && is_file),
{
    exists && is_file
}

/// Where a save stands. A save starts at `ProbingParent`.
#[derive(Clone, Copy, Debug, PartialEq, Eq, Structural)]
pub enum SavePhase {
    /// Waiting to learn whether the parent directory is missing.
    ProbingParent,
    /// Waiting for the missing directories to be created.
    CreatingParent,
    /// Waiting for the content to be written.
    Writing,
    /// Done: no further event is expected.
    Finished,
}

/// What the host reports back after performing an action.
#[derive(Debug)]
pub enum SaveEvent {
    /// The parent directory of the target, when it is missing from disk.
    ParentProbed(Option<String>),
    /// The outcome of creating the parent directory and its ancestors.
    ParentCreated(Result<(), IoFailure>),
    /// The outcome of writing the whole content to the target, replacing
    /// what it held.
    Written(Result<(), IoFailure>),
}

/// What the host is asked to do next.
#[derive(Debug)]
pub enum SaveAction {
    /// Create this directory and every missing ancestor.
    CreateParent(String),
    /// Write the content to the target, replacing what it held.
    Write,
    /// Stop, and hand this outcome to the caller.
    Finish(Result<SaveResult, String>),
}

/// An action as plain values.
pub enum SavePlan {
    CreateParent(Seq<char>),
    Write,
    Succeed,
    Fail(Seq<char>),
}

impl SaveAction {
    pub open spec fn plan(&self) -> SavePlan {
        match self {
            SaveAction::CreateParent(p) => SavePlan::CreateParent(p@),
            SaveAction::Write => SavePlan::Write,
            SaveAction::Finish(Ok(_)) => SavePlan::Succeed,
            SaveAction::Finish(Err(m)) => SavePlan::Fail(m@),
        }
    }

    /// A finishing outcome that reports success is the plain saved value.
    pub open spec fn reports_plainly(&self) -> bool {
        match self {
            SaveAction::Finish(Ok(s)) => s.success && s.error is None,
            _ => true,
        }
    }
}

/// Which event answers the action asked for in each phase.
pub open spec fn event_fits(phase: SavePhase, event: SaveEvent) -> bool {
    match event {
        SaveEvent::ParentProbed(_) => phase == SavePhase::ProbingParent,
        SaveEvent::ParentCreated(_) => phase == SavePhase::CreatingParent,
        SaveEvent::Written(_) => phase == SavePhase::Writing,
    }
}

/// The phase that follows an event.
pub open spec fn next_phase(event: SaveEvent) -> SavePhase {
    match event {
        SaveEvent::ParentProbed(Some(_)) => SavePhase::CreatingParent,
        SaveEvent::ParentProbed(None) => SavePhase::Writing,
        SaveEvent::ParentCreated(Ok(_)) => SavePhase::Writing,
        SaveEvent::ParentCreated(Err(_)) => SavePhase::Finished,
        SaveEvent::Written(_) => SavePhase::Finished,
    }
}

/// The action that follows an event.
pub open spec fn next_plan(event: SaveEvent) -> SavePlan {
    match event {
        SaveEvent::ParentProbed(Some(p)) => SavePlan::CreateParent(p@),
        SaveEvent::ParentProbed(None) => SavePlan::Write,
        SaveEvent::ParentCreated(Ok(_)) => SavePlan::Write,
        SaveEvent::ParentCreated(Err(e)) => SavePlan::Fail(
            user_message("Failed to create directory: "@, e),
        ),
        SaveEvent::Written(Ok(_)) => SavePlan::Succeed,
        SaveEvent::Written(Err(e)) => SavePlan::Fail(user_message("Failed to save file: "@, e)),
    }
}

/// Advances a save by one event.
pub fn save_step(phase: SavePhase, event: SaveEvent) -> (r: (SavePhase, SaveAction))
    requires
        event_fits(phase, event),
    ensures
        r.0 == next_phase(event),
        r.1.plan() == next_plan(event),
        r.1.reports_plainly(),
{
    match event {
        SaveEvent::ParentProbed(missing) => match missing {
            Some(p) => (SavePhase::CreatingParent, SaveAction::CreateParent(p)),
            None => (SavePhase::Writing, SaveAction::Write),
        },
        SaveEvent::ParentCreated(created) => match created {
            Ok(()) => (SavePhase::Writing, SaveAction::Write),
            Err(e) => (
                SavePhase::Finished,
                SaveAction::Finish(Err(format_user_message("Failed to create directory: ", &e))),
            ),
        },
        SaveEvent::Written(written) => match written {
            Ok(()) => (SavePhase::Finished, SaveAction::Finish(Ok(SaveResult::saved()))),
            Err(e) => (
                SavePhase::Finished,
                SaveAction::Finish(Err(format_user_message("Failed to save file: ", &e))),
            ),
        },
    }
}

/// A save whose target lacks its parent directory asks for that directory
/// and all its ancestors to be created, and once they are, goes on to write.
pub proof fn lemma_missing_parent_is_created(parent: String)
    ensures
        ({
            let probed = SaveEvent::ParentProbed(Some(parent));
            &&& event_fits(SavePhase::ProbingParent, probed)
            &&& next_phase(probed) == SavePhase::CreatingParent
            &&& next_plan(probed) == SavePlan::CreateParent(parent@)
        }),
        ({
            let created = SaveEvent::ParentCreated(Ok(()));
            &&& event_fits(SavePhase::CreatingParent, created)
            &&& next_phase(created) == SavePhase::Writing
            &&& next_plan(created) == SavePlan::Write
        }),
{
}

/// A failure to create the parent directory ends the save before any write:
/// the save finishes with a directory error, and a finished save takes no
/// further event.
pub proof fn lemma_directory_failure_ends_save(e: IoFailure)
    ensures
        ({
            let failed = SaveEvent::ParentCreated(Err(e));
            &&& next_phase(failed) == SavePhase::Finished
            &&& next_plan(failed) == SavePlan::Fail("Failed to create directory: "@ + e.description@)
        }),
        forall|event: SaveEvent| !event_fits(SavePhase::Finished, event),
{
}

/// A save is written only from the writing phase, which a failed directory
/// creation never reaches: only a probe that found the parent present, or a
/// successful creation, leads there.
pub proof fn lemma_write_follows_parent(phase: SavePhase, event: SaveEvent)
    requires
        event_fits(phase, event),
        next_plan(event) == SavePlan::Write,
    ensures
        (event is ParentProbed && event->ParentProbed_0 is None) || (event is ParentCreated
            && event->ParentCreated_0 is Ok),
        next_phase(event) == SavePhase::Writing,
{
}

} // verus!
