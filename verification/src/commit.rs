//! The atomic writer: the document's text, the names of the two files,
//! and the order of the steps that commit a document. The steps themselves
//! are the host's to perform; this module says which one is next and what
//! follows from its outcome.

use crate::table::{table_entries, to_text, toml_text};
use vstd::prelude::*;
use vstd::string::StringExecFns;

verus! {

/// The step of a commit that failed.
#[derive(Clone, Copy, PartialEq, Eq, Debug)]
pub enum CommitError {
    /// The directory could not be created.
    Directory,
    /// The document could not be written to the temporary file.
    Write,
    /// The temporary file could not be renamed to the target.
    Rename,
}

/// How far a commit has come.
#[derive(Clone, Copy, PartialEq, Eq, Debug)]
pub enum CommitState {
    Start,
    DirectoryReady,
    TempWritten,
    Committed,
    Failed(CommitError),
}

/// One step of a commit.
#[derive(Clone, Copy, PartialEq, Eq, Debug)]
pub enum CommitAction {
    /// Create the directory and its parents, if missing.
    CreateDirectory,
    /// Write the document's text to the temporary file.
    WriteTemp,
    /// Rename the temporary file to the target.
    Rename,
}

/// The step to take in `state`; none once the commit is over.
pub open spec fn action_of(state: CommitState) -> Option<CommitAction> {
    match state {
        CommitState::Start => Some(CommitAction::CreateDirectory),
        CommitState::DirectoryReady => Some(CommitAction::WriteTemp),
        CommitState::TempWritten => Some(CommitAction::Rename),
        CommitState::Committed => None,
        CommitState::Failed(_) => None,
    }
}

/// The state after the step of `state` was tried. A failure ends the
/// commit with the error of that step; a finished commit stays as it is.
pub open spec fn after(state: CommitState, succeeded: bool) -> CommitState {
    match state {
        CommitState::Start => if succeeded {
            CommitState::DirectoryReady
        } else {
            CommitState::Failed(CommitError::Directory)
        },
        CommitState::DirectoryReady => if succeeded {
            CommitState::TempWritten
        } else {
            CommitState::Failed(CommitError::Write)
        },
        CommitState::TempWritten => if succeeded {
            CommitState::Committed
        } else {
            CommitState::Failed(CommitError::Rename)
        },
        CommitState::Committed => state,
        CommitState::Failed(_) => state,
    }
}

/// The state after the steps with these outcomes, from the start.
pub open spec fn run(outcomes: Seq<bool>) -> CommitState
    decreases outcomes.len(),
{
    if outcomes.len() == 0 {
        CommitState::Start
    } else {
        after(run(outcomes.drop_last()), outcomes.last())
    }
}

/// The step to take next, or `None` when the commit is over.
pub fn next_action(state: CommitState) -> (action: Option<CommitAction>)
    ensures
        action == action_of(state),
{
    match state {
        CommitState::Start => Some(CommitAction::CreateDirectory),
        CommitState::DirectoryReady => Some(CommitAction::WriteTemp),
        CommitState::TempWritten => Some(CommitAction::Rename),
        CommitState::Committed => None,
        CommitState::Failed(_) => None,
    }
}

/// The state after the step of `state` succeeded or failed.
pub fn advance(state: CommitState, succeeded: bool) -> (next: CommitState)
    ensures
        next == after(state, succeeded),
{
    match state {
        CommitState::Start => if succeeded {
            CommitState::DirectoryReady
        } else {
            CommitState::Failed(CommitError::Directory)
        },
        CommitState::DirectoryReady => if succeeded {
            CommitState::TempWritten
        } else {
            CommitState::Failed(CommitError::Write)
        },
        CommitState::TempWritten => if succeeded {
            CommitState::Committed
        } else {
            CommitState::Failed(CommitError::Rename)
        },
        CommitState::Committed => state,
        CommitState::Failed(_) => state,
    }
}

/// The name of the preferences file within its directory.
pub fn file_name() -> (name: &'static str)
    ensures
        name@ == "prefs.toml"@,
{
    "prefs.toml"
}

/// The name of the temporary file: that of the target with `.new` behind
/// it, in the same directory.
pub fn temp_file_name() -> (name: String)
    ensures
        name@ == "prefs.toml"@ + ".new"@,
{
    let mut name = file_name().to_owned();
    name.append(".new");
    name
}

/// What the writer makes of the serializer's answer: the text, or a
/// failure of the write step.
pub fn rendered(written: Result<String, toml::ser::Error>) -> (text: Result<String, CommitError>)
    ensures
        match written {
            Ok(given) => text == Ok::<String, CommitError>(given),
            Err(_) => text == Err::<String, CommitError>(CommitError::Write),
        },
{
    match written {
        Ok(given) => Ok(given),
        Err(_) => Err(CommitError::Write),
    }
}

/// The document's TOML text. Where the serializer reports an error, the
/// write step has failed.
pub fn render(document: &toml::Table) -> (text: Result<String, CommitError>)
    ensures
        match text {
            Ok(given) => toml_text(table_entries(*document)) == Some(given@),
            Err(error) => error == CommitError::Write && toml_text(table_entries(*document))
                is None,
        },
{
    rendered(to_text(document))
}

/// The outcomes of the first steps of a commit decide where it stands.
pub proof fn lemma_run_prefix(outcomes: Seq<bool>)
    ensures
        outcomes.len() == 0 ==> run(outcomes) == CommitState::Start,
        outcomes.len() >= 1 && !outcomes[0] ==> run(outcomes) == CommitState::Failed(
            CommitError::Directory,
        ),
        outcomes.len() == 1 && outcomes[0] ==> run(outcomes) == CommitState::DirectoryReady,
        outcomes.len() >= 2 && outcomes[0] && !outcomes[1] ==> run(outcomes)
            == CommitState::Failed(CommitError::Write),
        outcomes.len() == 2 && outcomes[0] && outcomes[1] ==> run(outcomes)
            == CommitState::TempWritten,
        outcomes.len() >= 3 && outcomes[0] && outcomes[1] && !outcomes[2] ==> run(outcomes)
            == CommitState::Failed(CommitError::Rename),
        outcomes.len() >= 3 && outcomes[0] && outcomes[1] && outcomes[2] ==> run(outcomes)
            == CommitState::Committed,
    decreases outcomes.len(),
{
    if outcomes.len() > 0 {
        let shorter = outcomes.drop_last();
        lemma_run_prefix(shorter);
        assert(run(outcomes) == after(run(shorter), outcomes.last()));
        assert(forall|i: int| 0 <= i < shorter.len() ==> shorter[i] == outcomes[i]);
    }
}

/// A commit is complete exactly when the directory was made, the text was
/// written and the file was renamed, each with success and in that order.
pub proof fn law_committed_after_every_step(outcomes: Seq<bool>)
    ensures
        run(outcomes) == CommitState::Committed <==> (outcomes.len() >= 3 && outcomes[0]
            && outcomes[1] && outcomes[2]),
{
    lemma_run_prefix(outcomes);
}

/// The rename, the only step that touches the target, is due only after
/// the directory was made and the whole text was written.
pub proof fn law_rename_follows_write(outcomes: Seq<bool>)
    ensures
        action_of(run(outcomes)) == Some(CommitAction::Rename) <==> (outcomes.len() == 2
            && outcomes[0] && outcomes[1]),
{
    lemma_run_prefix(outcomes);
}

/// The first step that fails ends the commit: no step is due after it.
pub proof fn law_failure_ends_commit(outcomes: Seq<bool>, i: int)
    requires
        0 <= i < outcomes.len(),
        i < 3,
        !outcomes[i],
        forall|j: int| 0 <= j < i ==> outcomes[j],
    ensures
        run(outcomes) is Failed,
        action_of(run(outcomes)) is None,
{
    lemma_run_prefix(outcomes);
}

} // verus!
