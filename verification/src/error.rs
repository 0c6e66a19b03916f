use vstd::prelude::*;
use vstd::string::StringExecFns;

use crate::uuid_text;
use crate::uuid_text::uuid_to_string;
use crate::values::ContainerId;

verus! {

/// Why an operation of the window manager failed. `E` is the error of whoever
/// carries out its calls.
#[derive(Clone, Debug, PartialEq, Eq)]
pub enum WmError<E> {
    /// No container has the ID that a command was to run with.
    ContainerNotFound { id: ContainerId },
    /// A command was to run with the focused container, and there is none.
    NoSubjectContainer,
    /// The container that a command was to run with is out of the tree.
    SubjectDetached,
    /// The container that a command was to run with is in no workspace.
    NoWorkspace,
    /// No workspace has the name that a command gave.
    WorkspaceNotFound,
    /// A call failed.
    Host(E),
    /// A call was answered by a reply that is none of its own.
    UnexpectedReply,
}

impl<E> WmError<E> {
    /// The text of the error. That of a failed call is the call's own.
    pub open spec fn text(self) -> Option<Seq<char>> {
        match self {
            WmError::ContainerNotFound { id } => Some(
                "No container found with the given ID '"@ + uuid_text::hyphenated(id.value) + "'."@,
            ),
            WmError::NoSubjectContainer => Some("No subject container for command."@),
            WmError::SubjectDetached => Some(
                "Cannot run command because subject container is detached."@,
            ),
            WmError::NoWorkspace => Some("No workspace."@),
            WmError::WorkspaceNotFound => Some("Workspace doesn't exist."@),
            WmError::Host(_) => None,
            WmError::UnexpectedReply => Some("Unexpected reply to a call."@),
        }
    }

    /// The message that a user is shown, or nothing where a call failed: the
    /// call's own error then says what happened.
    pub fn message(&self) -> (message: Option<String>)
        ensures
            message is Some <==> self.text() is Some,
            message is Some ==> message->0@ == self.text()->0,
    {
        match self {
            WmError::ContainerNotFound { id } => {
                let mut message = String::from_str("No container found with the given ID '");
                message.append(uuid_to_string(id.value).as_str());
                message.append("'.");
                Some(message)
            },
            WmError::NoSubjectContainer => Some(
                String::from_str("No subject container for command."),
            ),
            WmError::SubjectDetached => Some(
                String::from_str("Cannot run command because subject container is detached."),
            ),
            WmError::NoWorkspace => Some(String::from_str("No workspace.")),
            WmError::WorkspaceNotFound => Some(String::from_str("Workspace doesn't exist.")),
            WmError::Host(_) => None,
            WmError::UnexpectedReply => Some(String::from_str("Unexpected reply to a call.")),
        }
    }
}

} // verus!
