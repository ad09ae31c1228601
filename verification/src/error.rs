//! The ways in which handling a crash can fail, and the line that reports each.

use crate::text::{decimal, decimal_text};
use vstd::prelude::*;
use vstd::string::StringExecFns;

verus! {

/// The steps of writing a dump, for saying which of them failed.
#[derive(Clone, Copy, Debug, PartialEq, Eq, Structural)]
pub enum WriteStage {
    /// Setting the file-creation mask.
    Mask,
    /// Creating the directories above the output file.
    Directories,
    /// Creating or truncating the output file.
    Open,
    /// Setting the permission bits of the output file.
    Permissions,
    /// Copying the dump into the output file.
    Copy,
}

/// Why the handler gave up. Each variant is fatal: nothing is retried.
#[derive(Clone, Debug, PartialEq, Eq)]
pub enum PipelineError {
    /// The arguments were not those of a crash report; `output` is what to
    /// show the operator.
    Usage { output: String },
    /// The user database has no entry for the user.
    IdentityLookup { uid: u32, detail: String },
    /// The process could not take on the identity of the user.
    PrivilegeDrop { uid: u32, detail: String },
    /// The policy script could not be read or parsed, or it raised an error.
    PolicyScript { detail: String },
    /// The policy asked for permission bits that no file mode can hold.
    InvalidPermissions { value: u64 },
    /// A step of writing the dump failed.
    Write { stage: WriteStage, detail: String },
    /// The driver reported something that the handler was not waiting for.
    OutOfTurn,
}

/// An error as a mathematical value.
pub enum ErrorView {
    Usage { output: Seq<char> },
    IdentityLookup { uid: u32, detail: Seq<char> },
    PrivilegeDrop { uid: u32, detail: Seq<char> },
    PolicyScript { detail: Seq<char> },
    InvalidPermissions { value: u64 },
    Write { stage: WriteStage, detail: Seq<char> },
    OutOfTurn,
}

impl View for PipelineError {
    type V = ErrorView;

    open spec fn view(&self) -> ErrorView {
        match self {
            PipelineError::Usage { output } => ErrorView::Usage { output: output@ },
            PipelineError::IdentityLookup { uid, detail } => ErrorView::IdentityLookup {
                uid: *uid,
                detail: detail@,
            },
            PipelineError::PrivilegeDrop { uid, detail } => ErrorView::PrivilegeDrop {
                uid: *uid,
                detail: detail@,
            },
            PipelineError::PolicyScript { detail } => ErrorView::PolicyScript { detail: detail@ },
            PipelineError::InvalidPermissions { value } => ErrorView::InvalidPermissions {
                value: *value,
            },
            PipelineError::Write { stage, detail } => ErrorView::Write {
                stage: *stage,
                detail: detail@,
            },
            PipelineError::OutOfTurn => ErrorView::OutOfTurn,
        }
    }
}

/// What a failed step of writing is called in a report.
pub open spec fn stage_context(stage: WriteStage) -> Seq<char> {
    match stage {
        WriteStage::Mask => "error setting file creation mask"@,
        WriteStage::Directories => "error creating core dump directories"@,
        WriteStage::Open => "error opening core dump file"@,
        WriteStage::Permissions => "error setting core dump permissions"@,
        WriteStage::Copy => "error writing core dump"@,
    }
}

/// The line that reports an error.
pub open spec fn message_of(error: ErrorView) -> Seq<char> {
    match error {
        ErrorView::Usage { output } => output,
        ErrorView::IdentityLookup { uid, detail } => "Error getting username for user ID "@
            + decimal(uid as nat) + ": "@ + detail,
        ErrorView::PrivilegeDrop { uid, detail } => "Error switching to user ID "@ + decimal(
            uid as nat,
        ) + ": "@ + detail,
        ErrorView::PolicyScript { detail } => "Sellafield config script execution error: "@
            + detail,
        ErrorView::InvalidPermissions { value } =>
            "Sellafield config script returned invalid permissions mode: "@ + decimal(
            value as nat,
        ) + ". out of range integral type conversion attempted"@,
        ErrorView::Write { stage, detail } => stage_context(stage) + ": "@ + detail,
        ErrorView::OutOfTurn => "Sellafield was told of a step it had not asked for"@,
    }
}

impl WriteStage {
    /// What this step is called in a report.
    pub fn context(self) -> (text: &'static str)
        ensures
            text@ == stage_context(self),
    {
        match self {
            WriteStage::Mask => "error setting file creation mask",
            WriteStage::Directories => "error creating core dump directories",
            WriteStage::Open => "error opening core dump file",
            WriteStage::Permissions => "error setting core dump permissions",
            WriteStage::Copy => "error writing core dump",
        }
    }
}

impl PipelineError {
    /// The line that reports this error: which step failed, and on which
    /// number or with which underlying message.
    pub fn message(&self) -> (text: String)
        ensures
            text@ == message_of(self@),
    {
        match self {
            PipelineError::Usage { output } => output.clone(),
            PipelineError::IdentityLookup { uid, detail } => {
                let mut text = String::from_str("Error getting username for user ID ");
                text.append(decimal_text(*uid as u128).as_str());
                text.append(": ");
                text.append(detail.as_str());
                text
            },
            PipelineError::PrivilegeDrop { uid, detail } => {
                let mut text = String::from_str("Error switching to user ID ");
                text.append(decimal_text(*uid as u128).as_str());
                text.append(": ");
                text.append(detail.as_str());
                text
            },
            PipelineError::PolicyScript { detail } => {
                let mut text = String::from_str("Sellafield config script execution error: ");
                text.append(detail.as_str());
                text
            },
            PipelineError::InvalidPermissions { value } => {
                let mut text = String::from_str(
                    "Sellafield config script returned invalid permissions mode: ",
                );
                text.append(decimal_text(*value as u128).as_str());
                text.append(". out of range integral type conversion attempted");
                text
            },
            PipelineError::Write { stage, detail } => {
                let mut text = String::from_str(stage.context());
                text.append(": ");
                text.append(detail.as_str());
                text
            },
            PipelineError::OutOfTurn => String::from_str(
                "Sellafield was told of a step it had not asked for",
            ),
        }
    }

    pub fn duplicate(&self) -> (copy: PipelineError)
        ensures
            copy@ == self@,
    {
        match self {
            PipelineError::Usage { output } => PipelineError::Usage { output: output.clone() },
            PipelineError::IdentityLookup { uid, detail } => PipelineError::IdentityLookup {
                uid: *uid,
                detail: detail.clone(),
            },
            PipelineError::PrivilegeDrop { uid, detail } => PipelineError::PrivilegeDrop {
                uid: *uid,
                detail: detail.clone(),
            },
            PipelineError::PolicyScript { detail } => PipelineError::PolicyScript {
                detail: detail.clone(),
            },
            PipelineError::InvalidPermissions { value } => PipelineError::InvalidPermissions {
                value: *value,
            },
            PipelineError::Write { stage, detail } => PipelineError::Write {
                stage: *stage,
                detail: detail.clone(),
            },
            PipelineError::OutOfTurn => PipelineError::OutOfTurn,
        }
    }
}

} // verus!
