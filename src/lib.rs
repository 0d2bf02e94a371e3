//! Build-time bridge that has the scaffolding of a foreign-function interface
//! generated from an interface-definition file.
//!
//! The library decides; the caller acts. [`plan_scaffolding`] turns the input
//! path, the build's output directory and the chosen strategy into the
//! change-tracking directive and either the invocation to perform or the
//! error to report. [`finish_tool`] and [`finish_generator`] turn what the
//! invocation returned into the operation's result.

mod error;
mod laws;
mod outcome;
mod plan;

pub use error::{BridgeError, ErrorKind, ErrorModel};
pub use plan::{
    plan_scaffolding, rerun_directive, resolve_out_dir, tool_arguments, Invocation,
    InvocationModel, Plan, PlanModel, Strategy, DIRECTIVE_PREFIX, OUT_DIR_FLAG, OUT_DIR_VARIABLE,
    SCAFFOLDING_SUBCOMMAND, TOOL_PROGRAM,
};
pub use laws::{
    contains, lemma_directive_names_input, lemma_generator_error_unchanged,
    lemma_missing_out_dir_invokes_nothing, lemma_same_inputs_same_invocation,
    lemma_tool_exit_status_decides, lemma_tool_launch_failure_names_tool,
};
pub use outcome::{finish_generator, finish_tool, ToolOutcome, ToolOutcomeModel};
