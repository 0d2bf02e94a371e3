use vstd::prelude::*;
use vstd::string::*;

use crate::error::{BridgeError, ErrorModel};

verus! {

/// Name of the generator executable, looked up on the search path.
pub const TOOL_PROGRAM: &'static str = "uniffi-bindgen";

/// Name of the build-environment variable that holds the output directory.
pub const OUT_DIR_VARIABLE: &'static str = "OUT_DIR";

/// The generator executable's name.
pub open spec fn tool_program() -> Seq<char> {
    TOOL_PROGRAM@
}

/// Text that opens the change-tracking directive.
pub const DIRECTIVE_PREFIX: &'static str = "cargo:rerun-if-changed=";

/// Subcommand of the generator executable that writes the scaffolding.
pub const SCAFFOLDING_SUBCOMMAND: &'static str = "scaffolding";

/// Flag of the generator executable that names the output directory.
pub const OUT_DIR_FLAG: &'static str = "--out-dir";

/// How the scaffolding is produced. A build fixes one and keeps it.
#[derive(Clone, Copy, Debug, PartialEq, Eq, Structural)]
pub enum Strategy {
    /// Run the generator executable as a subprocess, so that the scaffolding
    /// and the consumer bindings come from the same installed generator.
    ExternalTool,
    /// Call the generator library linked into the build.
    Builtin,
}

/// The outside work that produces the scaffolding.
#[derive(Debug)]
pub enum Invocation {
    /// Run `program` with `args` and wait for it to exit.
    RunTool { program: String, args: Vec<String> },
    /// Call the generator library on `idl_file`, writing into `out_dir`,
    /// with its formatting of the generated code switched on or off.
    CallGenerator { idl_file: String, out_dir: String, format_code: bool },
}

/// What an [`Invocation`] holds, as plain values.
pub enum InvocationModel {
    RunTool { program: Seq<char>, args: Seq<Seq<char>> },
    CallGenerator { idl_file: Seq<char>, out_dir: Seq<char>, format_code: bool },
}

impl View for Invocation {
    type V = InvocationModel;

    open spec fn view(&self) -> InvocationModel {
        match self {
            Invocation::RunTool { program, args } => InvocationModel::RunTool {
                program: program@,
                args: args.deep_view(),
            },
            Invocation::CallGenerator { idl_file, out_dir, format_code } => {
                InvocationModel::CallGenerator {
                    idl_file: idl_file@,
                    out_dir: out_dir@,
                    format_code: *format_code,
                }
            },
        }
    }
}

/// The decisions of one run: the directive to print first, then either the
/// invocation to perform or the error to report.
#[derive(Debug)]
pub struct Plan {
    pub directive: String,
    pub next: Result<Invocation, BridgeError>,
}

/// What a [`Plan`] holds, as plain values.
pub struct PlanModel {
    pub directive: Seq<char>,
    pub next: Result<InvocationModel, ErrorModel>,
}

impl View for Plan {
    type V = PlanModel;

    open spec fn view(&self) -> PlanModel {
        PlanModel {
            directive: self.directive@,
            next: match &self.next {
                Ok(inv) => Ok(inv@),
                Err(e) => Err(e@),
            },
        }
    }
}

/// The directive asking the build to run the bridge again when `idl_file`
/// changes.
pub open spec fn directive_of(idl_file: Seq<char>) -> Seq<char> {
    DIRECTIVE_PREFIX@ + idl_file
}

/// The generator executable's arguments.
pub open spec fn tool_args_of(out_dir: Seq<char>, idl_file: Seq<char>) -> Seq<Seq<char>> {
    seq![SCAFFOLDING_SUBCOMMAND@, OUT_DIR_FLAG@, out_dir, idl_file]
}

/// The invocation that `strategy` performs.
pub open spec fn invocation_of(
    idl_file: Seq<char>,
    out_dir: Seq<char>,
    strategy: Strategy,
) -> InvocationModel {
    match strategy {
        Strategy::ExternalTool => InvocationModel::RunTool {
            program: tool_program(),
            args: tool_args_of(out_dir, idl_file),
        },
        Strategy::Builtin => InvocationModel::CallGenerator { idl_file, out_dir, format_code: true },
    }
}

/// The plan of one run.
pub open spec fn plan_of(
    idl_file: Seq<char>,
    out_dir: Option<Seq<char>>,
    strategy: Strategy,
) -> PlanModel {
    PlanModel {
        directive: directive_of(idl_file),
        next: match out_dir {
            Some(d) => Ok(invocation_of(idl_file, d, strategy)),
            None => Err(ErrorModel::MissingOutDir),
        },
    }
}

/// The change-tracking directive for `idl_file`, one line without its end.
pub fn rerun_directive(idl_file: &str) -> (r: String)
    ensures
        r@ == directive_of(idl_file@),
{
    let mut r = String::from_str(DIRECTIVE_PREFIX);
    r.append(idl_file);
    r
}

/// The output directory, or a configuration error where the variable was
/// absent.
pub fn resolve_out_dir(var: Option<String>) -> (r: Result<String, BridgeError>)
    ensures
        var is Some <==> r is Ok,
        var matches Some(d) ==> (r matches Ok(o) && o@ == d@),
        var is None ==> (r matches Err(e) && e@ == ErrorModel::MissingOutDir),
{
    match var {
        Some(d) => Ok(d),
        None => Err(BridgeError::MissingOutDir),
    }
}

/// The arguments that make the generator executable write the scaffolding of
/// `idl_file` into `out_dir`.
pub fn tool_arguments(out_dir: &str, idl_file: &str) -> (r: Vec<String>)
    ensures
        r.deep_view() == tool_args_of(out_dir@, idl_file@),
{
    let mut r: Vec<String> = Vec::new();
    r.push(String::from_str(SCAFFOLDING_SUBCOMMAND));
    r.push(String::from_str(OUT_DIR_FLAG));
    r.push(String::from_str(out_dir));
    r.push(String::from_str(idl_file));
    assert(r.deep_view() =~= tool_args_of(out_dir@, idl_file@));
    r
}

/// Decides one run of the bridge: the directive for `idl_file`, which holds
/// whatever follows, then the invocation of `strategy` on the output directory
/// `out_dir`, or a configuration error where `out_dir` is absent, with no
/// invocation at all.
pub fn plan_scaffolding(idl_file: &str, out_dir: Option<String>, strategy: Strategy) -> (r: Plan)
    ensures
        r@ == plan_of(idl_file@, out_dir.deep_view(), strategy),
{
    let directive = rerun_directive(idl_file);
    let next = match resolve_out_dir(out_dir) {
        Ok(d) => match strategy {
            Strategy::ExternalTool => Ok(
                Invocation::RunTool {
                    program: String::from_str(TOOL_PROGRAM),
                    args: tool_arguments(d.as_str(), idl_file),
                },
            ),
            Strategy::Builtin => Ok(
                Invocation::CallGenerator {
                    idl_file: String::from_str(idl_file),
                    out_dir: d,
                    format_code: true,
                },
            ),
        },
        Err(e) => Err(e),
    };
    Plan { directive, next }
}

} // verus!
