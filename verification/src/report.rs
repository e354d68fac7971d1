//! What the program says: its help, its version, and what it was doing
//! when a run failed.

use crate::error::{Error, HandoffError};
use crate::pipeline::{PipelineState, Stage};
use vstd::prelude::*;
use vstd::string::StringExecFns;

verus! {

/// Where the bytes come from, by name.
#[derive(Debug, PartialEq, Eq)]
pub enum SourceName {
    /// The standard input that the program was started with.
    StandardInput,
    /// The file of this name.
    File(String),
    /// A file whose name cannot be shown as text.
    UnnamedFile,
}

impl SourceName {
    /// The name as it stands in a message.
    pub open spec fn spec_text(self) -> Seq<char> {
        match self {
            SourceName::StandardInput => "stdin"@,
            SourceName::File(name) => name@,
            SourceName::UnnamedFile => "(not UTF-8)"@,
        }
    }

    /// The name as it stands in a message.
    pub fn text(&self) -> (text: String)
        ensures
            text@ == self.spec_text(),
    {
        match self {
            SourceName::StandardInput => String::from_str("stdin"),
            SourceName::File(name) => name.clone(),
            SourceName::UnnamedFile => String::from_str("(not UTF-8)"),
        }
    }
}

/// What a run can be doing when it fails.
#[derive(Clone, Copy, Debug, PartialEq, Eq, Structural)]
pub enum Activity {
    CreatingBuffer,
    SealingAgainstShrinking,
    OpeningSource,
    Transferring,
    SealingForGood,
    Redirecting,
    Launching,
}

impl Activity {
    /// The activity in words, for a run that reads `source`.
    pub open spec fn spec_describe(self, source: SourceName) -> Seq<char> {
        match self {
            Activity::CreatingBuffer => "creating a memfd instance"@,
            Activity::SealingAgainstShrinking => "sealing the memfd instance against shrinking"@,
            Activity::OpeningSource => "opening "@ + source.spec_text() + " for reading"@,
            Activity::Transferring => "transferring data from "@ + source.spec_text()
                + " to memory"@,
            Activity::SealingForGood =>
                "sealing the memfd instance against growing or modification"@,
            Activity::Redirecting => "redirecting stdin"@,
            Activity::Launching => "executing the media player"@,
        }
    }

    /// The activity in words, for a run that reads `source`.
    pub fn describe(self, source: &SourceName) -> (words: String)
        ensures
            words@ == self.spec_describe(*source),
    {
        match self {
            Activity::CreatingBuffer => String::from_str("creating a memfd instance"),
            Activity::SealingAgainstShrinking => String::from_str(
                "sealing the memfd instance against shrinking",
            ),
            Activity::OpeningSource => {
                let mut words = String::from_str("opening ");
                words.append(source.text().as_str());
                words.append(" for reading");
                words
            },
            Activity::Transferring => {
                let mut words = String::from_str("transferring data from ");
                words.append(source.text().as_str());
                words.append(" to memory");
                words
            },
            Activity::SealingForGood => String::from_str(
                "sealing the memfd instance against growing or modification",
            ),
            Activity::Redirecting => String::from_str("redirecting stdin"),
            Activity::Launching => String::from_str("executing the media player"),
        }
    }

    /// What a pipeline in `state` is doing: the call it asks for, or,
    /// where it has failed, the call that failed.
    pub open spec fn spec_of(state: PipelineState) -> Activity {
        match state.stage {
            Stage::Created => Activity::SealingAgainstShrinking,
            Stage::ShrinkGuarded => Activity::Transferring,
            Stage::Filled => Activity::SealingForGood,
            Stage::Finalized => if state.redirected {
                Activity::Launching
            } else {
                Activity::Redirecting
            },
            Stage::HandedOff => Activity::Launching,
        }
    }

    /// What a pipeline in `state` is doing: the call it asks for, or,
    /// where it has failed, the call that failed.
    pub fn of(state: &PipelineState) -> (activity: Activity)
        ensures
            activity == Activity::spec_of(*state),
    {
        match state.stage {
            Stage::Created => Activity::SealingAgainstShrinking,
            Stage::ShrinkGuarded => Activity::Transferring,
            Stage::Filled => Activity::SealingForGood,
            Stage::Finalized => {
                if state.redirected {
                    Activity::Launching
                } else {
                    Activity::Redirecting
                }
            },
            Stage::HandedOff => Activity::Launching,
        }
    }

    /// The activity that gives rise to `error`; for the refusal of a
    /// seal, which of the two seals it was shows in the pipeline only,
    /// and `None` is the answer here.
    pub open spec fn spec_behind(error: Error) -> Option<Activity> {
        match error {
            Error::Allocation(_) => Some(Activity::CreatingBuffer),
            Error::Seal(_) => None,
            Error::InvalidState { .. } => None,
            Error::Transfer(_) => Some(Activity::Transferring),
            Error::Handoff(HandoffError::Redirect(_)) => Some(Activity::Redirecting),
            Error::Handoff(HandoffError::Launch(_)) => Some(Activity::Launching),
        }
    }

    /// The activity that gives rise to `error`, where the error alone
    /// tells.
    pub fn behind(error: &Error) -> (activity: Option<Activity>)
        ensures
            activity == Activity::spec_behind(*error),
    {
        match error {
            Error::Allocation(_) => Some(Activity::CreatingBuffer),
            Error::Seal(_) => None,
            Error::InvalidState { .. } => None,
            Error::Transfer(_) => Some(Activity::Transferring),
            Error::Handoff(HandoffError::Redirect(_)) => Some(Activity::Redirecting),
            Error::Handoff(HandoffError::Launch(_)) => Some(Activity::Launching),
        }
    }
}

/// The failure of a pipeline is told by the activity of its state:
/// wherever the error alone names an activity, it is that of the state
/// in which the pipeline stopped.
pub proof fn lemma_activity_of_failure(state: PipelineState, reply: crate::sys::Reply)
    requires
        state.wf(),
        state.failure is None,
        state.observe(reply).failure is Some,
    ensures
        Activity::spec_of(state.observe(reply)) == Activity::spec_of(state),
        Activity::spec_behind(state.observe(reply).failure->Some_0) matches Some(activity)
            ==> activity == Activity::spec_of(state),
{
}

/// The message for a run that failed while `action`, with `failure` as
/// the system's words for what went wrong.
pub fn failure_message(action: &str, failure: &str) -> (message: String)
    ensures
        message@ == "An error has occurred while "@ + action@ + ": "@ + failure@,
{
    let mut message = String::from_str("An error has occurred while ");
    message.append(action);
    message.append(": ");
    message.append(failure);
    message
}

/// The help of the program that was called by `name`.
pub fn usage(name: &str) -> (help: String)
    ensures
        help@ == "Usage: "@ + name@
            + " [filename]\n      \nIf [filename] is not set, stdin is used\n\n"@ + name@
            + " can be configured with environment variables:\n\nCUSTOM_MPV_OPTIONS -- options to pass to mpv\nMEMFD_COPY_RATE -- data transfer rate\nCUSTOM_PLAYER_BINARY -- invoke custom player (not mpv)"@,
{
    let mut help = String::from_str("Usage: ");
    help.append(name);
    help.append(" [filename]\n      \nIf [filename] is not set, stdin is used\n\n");
    help.append(name);
    help.append(
        " can be configured with environment variables:\n\nCUSTOM_MPV_OPTIONS -- options to pass to mpv\nMEMFD_COPY_RATE -- data transfer rate\nCUSTOM_PLAYER_BINARY -- invoke custom player (not mpv)",
    );
    help
}

/// The line that tells the version of the program that was called by
/// `name`.
pub fn version_line(name: &str, version: &str) -> (line: String)
    ensures
        line@ == name@ + " "@ + version@,
{
    let mut line = String::from_str(name);
    line.append(" ");
    line.append(version);
    line
}

/// What stands before the value of the option string in the message
/// about a value that is not text.
pub fn bad_options_opening() -> (words: &'static str)
    ensures
        words@ == "An error has occurred: CUSTOM_MPV_OPTIONS environment variable value "@,
{
    "An error has occurred: CUSTOM_MPV_OPTIONS environment variable value "
}

/// What stands behind the value of the option string in the message
/// about a value that is not text, for the program that was called by
/// `name`.
pub fn bad_options_closing(name: &str) -> (words: String)
    ensures
        words@ == " is not a valid UTF-8 string. "@ + name@
            + " performs string manipulations on it, which requires it to be an UTF-8 string"@,
{
    let mut words = String::from_str(" is not a valid UTF-8 string. ");
    words.append(name);
    words.append(" performs string manipulations on it, which requires it to be an UTF-8 string");
    words
}

} // verus!
