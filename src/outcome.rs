use vstd::prelude::*;

use crate::error::{BridgeError, ErrorModel};

verus! {

/// What became of an attempt to run the generator executable.
#[derive(Debug)]
pub enum ToolOutcome {
    /// The process ran to its end; `success` tells whether its exit status
    /// was a success.
    Exited { success: bool },
    /// The process could not be started; `cause` describes why.
    LaunchFailed { cause: String },
}

/// What a [`ToolOutcome`] holds, as plain values.
pub enum ToolOutcomeModel {
    Exited { success: bool },
    LaunchFailed { cause: Seq<char> },
}

impl View for ToolOutcome {
    type V = ToolOutcomeModel;

    open spec fn view(&self) -> ToolOutcomeModel {
        match self {
            ToolOutcome::Exited { success } => ToolOutcomeModel::Exited { success: *success },
            ToolOutcome::LaunchFailed { cause } => ToolOutcomeModel::LaunchFailed { cause: cause@ },
        }
    }
}

/// The operation's result after the generator executable was tried.
pub open spec fn tool_result(outcome: ToolOutcomeModel) -> Result<(), ErrorModel> {
    match outcome {
        ToolOutcomeModel::Exited { success } => if success {
            Ok(())
        } else {
            Err(ErrorModel::ToolFailed)
        },
        ToolOutcomeModel::LaunchFailed { cause } => Err(ErrorModel::ToolLaunch { cause }),
    }
}

/// The operation's result after the in-process generator returned `result`,
/// whose error is the generator's own diagnostic.
pub open spec fn generator_result(result: Result<(), Seq<char>>) -> Result<(), ErrorModel> {
    match result {
        Ok(()) => Ok(()),
        Err(message) => Err(ErrorModel::Generator { message }),
    }
}

/// A result of the library, as plain values.
pub open spec fn result_view(r: Result<(), BridgeError>) -> Result<(), ErrorModel> {
    match r {
        Ok(()) => Ok(()),
        Err(e) => Err(e@),
    }
}

/// The operation's result once the generator executable was tried: success
/// only where it exited with a success status, a generation error where it
/// exited otherwise, and a tool-invocation error that keeps the cause where it
/// could not be started.
pub fn finish_tool(outcome: ToolOutcome) -> (r: Result<(), BridgeError>)
    ensures
        result_view(r) == tool_result(outcome@),
{
    match outcome {
        ToolOutcome::Exited { success } => {
            if success {
                Ok(())
            } else {
                Err(BridgeError::ToolFailed)
            }
        },
        ToolOutcome::LaunchFailed { cause } => Err(BridgeError::ToolLaunch { cause }),
    }
}

/// The operation's result once the in-process generator returned: success
/// where it succeeded, else its diagnostic, unchanged, as a generation error.
pub fn finish_generator(result: Result<(), String>) -> (r: Result<(), BridgeError>)
    ensures
        result_view(r) == generator_result(
            match result {
                Ok(()) => Ok(()),
                Err(m) => Err(m@),
            },
        ),
{
    match result {
        Ok(()) => Ok(()),
        Err(message) => Err(BridgeError::Generator { message }),
    }
}

} // verus!
