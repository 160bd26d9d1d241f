//! How running a command can fail.
use vstd::prelude::*;
use vstd::string::*;

verus! {

/// Why a command gave no exit.
#[derive(Debug)]
pub enum CommandError {
    /// The run was cancelled.
    Cancelled,
    /// The process could not be spawned.
    BadSpawn { inner_error: String },
    /// The process could not be waited for.
    BadExit { inner_error: String },
    /// No permit to run the command could be had.
    Acquire { inner_error: String },
}

/// What a [`CommandError`] says.
pub enum CommandErrorView {
    Cancelled,
    BadSpawn { inner_error: Seq<char> },
    BadExit { inner_error: Seq<char> },
    Acquire { inner_error: Seq<char> },
}

impl View for CommandError {
    type V = CommandErrorView;

    open spec fn view(&self) -> CommandErrorView {
        match self {
            CommandError::Cancelled => CommandErrorView::Cancelled,
            CommandError::BadSpawn { inner_error } => CommandErrorView::BadSpawn {
                inner_error: inner_error@,
            },
            CommandError::BadExit { inner_error } => CommandErrorView::BadExit {
                inner_error: inner_error@,
            },
            CommandError::Acquire { inner_error } => CommandErrorView::Acquire {
                inner_error: inner_error@,
            },
        }
    }
}

impl Clone for CommandError {
    fn clone(&self) -> (copy: Self)
        ensures
            copy@ == self@,
    {
        match self {
            CommandError::Cancelled => CommandError::Cancelled,
            CommandError::BadSpawn { inner_error } => CommandError::BadSpawn {
                inner_error: inner_error.clone(),
            },
            CommandError::BadExit { inner_error } => CommandError::BadExit {
                inner_error: inner_error.clone(),
            },
            CommandError::Acquire { inner_error } => CommandError::Acquire {
                inner_error: inner_error.clone(),
            },
        }
    }
}

impl CommandErrorView {
    /// The sentence that tells a user of the error.
    pub open spec fn message(self) -> Seq<char> {
        match self {
            CommandErrorView::Cancelled => "Command execution cancelled"@,
            CommandErrorView::BadSpawn { inner_error } =>
                "Failed to spawn command process: "@ + inner_error,
            CommandErrorView::BadExit { inner_error } =>
                "Command process exited with error: "@ + inner_error,
            CommandErrorView::Acquire { inner_error } =>
                "Failed to acquire permit for command execution: "@ + inner_error,
        }
    }
}

impl CommandError {
    /// The sentence that tells a user of the error.
    pub fn message(&self) -> (text: String)
        ensures
            text@ == self@.message(),
    {
        match self {
            CommandError::Cancelled => "Command execution cancelled".to_owned(),
            CommandError::BadSpawn { inner_error } =>
                "Failed to spawn command process: ".to_owned().concat(inner_error.as_str()),
            CommandError::BadExit { inner_error } =>
                "Command process exited with error: ".to_owned().concat(inner_error.as_str()),
            CommandError::Acquire { inner_error } =>
                "Failed to acquire permit for command execution: ".to_owned().concat(
                    inner_error.as_str(),
                ),
        }
    }
}

/// What is read off an error is its kind and the text of what caused it.
pub proof fn law_error_is_read_whole(error: CommandError)
    ensures
        error is Cancelled <==> error@ is Cancelled,
        error matches CommandError::BadSpawn { inner_error } ==> error@ == (
            CommandErrorView::BadSpawn { inner_error: inner_error@ }),
        error matches CommandError::BadExit { inner_error } ==> error@ == (
            CommandErrorView::BadExit { inner_error: inner_error@ }),
        error matches CommandError::Acquire { inner_error } ==> error@ == (
            CommandErrorView::Acquire { inner_error: inner_error@ }),
{
}

/// The message of an error tells its kind by how it begins, and gives the text
/// of what caused it whole, after that and nothing after it.
pub proof fn law_messages_tell_the_cause(cause: Seq<char>)
    ensures
        CommandErrorView::Cancelled.message() == "Command execution cancelled"@,
        (CommandErrorView::BadSpawn { inner_error: cause }).message()
            == "Failed to spawn command process: "@ + cause,
        (CommandErrorView::BadExit { inner_error: cause }).message()
            == "Command process exited with error: "@ + cause,
        (CommandErrorView::Acquire { inner_error: cause }).message()
            == "Failed to acquire permit for command execution: "@ + cause,
{
}

} // verus!
