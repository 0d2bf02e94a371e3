use vstd::prelude::*;
use vstd::string::*;

use crate::plan::{tool_program, TOOL_PROGRAM};

verus! {

/// The three stages at which the operation can fail.
#[derive(Clone, Copy, Debug, PartialEq, Eq, Structural)]
pub enum ErrorKind {
    /// The build did not provide an output directory.
    Configuration,
    /// The generator executable could not be started.
    ToolInvocation,
    /// The generator ran and reported a failure.
    Generation,
}

/// Why the scaffolding could not be produced.
#[derive(Debug)]
pub enum BridgeError {
    /// The output-directory variable was absent.
    MissingOutDir,
    /// The generator executable could not be located or launched; `cause`
    /// describes the underlying failure.
    ToolLaunch { cause: String },
    /// The generator executable ran and exited with a non-success status.
    ToolFailed,
    /// The in-process generator returned an error, carried as it came.
    Generator { message: String },
}

/// What a [`BridgeError`] holds, as plain values.
pub enum ErrorModel {
    MissingOutDir,
    ToolLaunch { cause: Seq<char> },
    ToolFailed,
    Generator { message: Seq<char> },
}

impl View for BridgeError {
    type V = ErrorModel;

    open spec fn view(&self) -> ErrorModel {
        match self {
            BridgeError::MissingOutDir => ErrorModel::MissingOutDir,
            BridgeError::ToolLaunch { cause } => ErrorModel::ToolLaunch { cause: cause@ },
            BridgeError::ToolFailed => ErrorModel::ToolFailed,
            BridgeError::Generator { message } => ErrorModel::Generator { message: message@ },
        }
    }
}

impl ErrorModel {
    /// The stage that an error belongs to.
    pub open spec fn kind(self) -> ErrorKind {
        match self {
            ErrorModel::MissingOutDir => ErrorKind::Configuration,
            ErrorModel::ToolLaunch { .. } => ErrorKind::ToolInvocation,
            ErrorModel::ToolFailed => ErrorKind::Generation,
            ErrorModel::Generator { .. } => ErrorKind::Generation,
        }
    }

    /// The diagnostic that names the failed stage.
    pub open spec fn message(self) -> Seq<char> {
        match self {
            ErrorModel::MissingOutDir => "$OUT_DIR missing?!"@,
            ErrorModel::ToolLaunch { cause } => "failed to run `"@ + tool_program() + "`: "@ + cause,
            ErrorModel::ToolFailed => "Error while generating scaffolding code"@,
            ErrorModel::Generator { message } => message,
        }
    }
}

impl BridgeError {
    /// The stage at which the operation failed.
    pub fn kind(&self) -> (r: ErrorKind)
        ensures
            r == self@.kind(),
    {
        match self {
            BridgeError::MissingOutDir => ErrorKind::Configuration,
            BridgeError::ToolLaunch { .. } => ErrorKind::ToolInvocation,
            BridgeError::ToolFailed => ErrorKind::Generation,
            BridgeError::Generator { .. } => ErrorKind::Generation,
        }
    }

    /// The diagnostic to show for the failed build step.
    pub fn message(&self) -> (r: String)
        ensures
            r@ == self@.message(),
    {
        match self {
            BridgeError::MissingOutDir => String::from_str("$OUT_DIR missing?!"),
            BridgeError::ToolLaunch { cause } => {
                let mut r = String::from_str("failed to run `");
                r.append(TOOL_PROGRAM);
                r.append("`: ");
                r.append(cause.as_str());
                r
            },
            BridgeError::ToolFailed => String::from_str("Error while generating scaffolding code"),
            BridgeError::Generator { message } => message.clone(),
        }
    }
}

} // verus!
