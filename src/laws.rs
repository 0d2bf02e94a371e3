use vstd::prelude::*;

use crate::error::{ErrorKind, ErrorModel};
use crate::outcome::{generator_result, tool_result, ToolOutcomeModel};
use crate::plan::{
    directive_of, plan_of, tool_program, InvocationModel, Strategy, DIRECTIVE_PREFIX,
};

verus! {

/// Whether `part` occurs in `text` as a contiguous run.
pub open spec fn contains(text: Seq<char>, part: Seq<char>) -> bool {
    exists|i: int|
        0 <= i && i + part.len() <= text.len() && #[trigger] text.subrange(i, i + part.len())
            == part
}

/// Without an output directory the run fails with a configuration error, and
/// neither the generator executable nor the generator library is invoked.
pub proof fn lemma_missing_out_dir_invokes_nothing(idl_file: Seq<char>, strategy: Strategy)
    ensures
        plan_of(idl_file, None, strategy).next == Err::<InvocationModel, ErrorModel>(
            ErrorModel::MissingOutDir,
        ),
        ErrorModel::MissingOutDir.kind() == ErrorKind::Configuration,
{
}

/// Under the external strategy with an output directory the executable is
/// run, and an exit with a failure status makes the run fail with a generation
/// error; an exit with a success status makes it succeed.
pub proof fn lemma_tool_exit_status_decides(idl_file: Seq<char>, out_dir: Seq<char>)
    ensures
        plan_of(idl_file, Some(out_dir), Strategy::ExternalTool).next matches Ok(
            InvocationModel::RunTool { .. },
        ),
        tool_result(ToolOutcomeModel::Exited { success: false }) matches Err(e) && e.kind()
            == ErrorKind::Generation,
        tool_result(ToolOutcomeModel::Exited { success: true }) is Ok,
{
}

/// Under the external strategy, an executable that cannot be started makes
/// the run fail with a tool-invocation error whose message names the
/// executable that was run and holds the cause.
pub proof fn lemma_tool_launch_failure_names_tool(
    idl_file: Seq<char>,
    out_dir: Seq<char>,
    cause: Seq<char>,
)
    ensures
        plan_of(idl_file, Some(out_dir), Strategy::ExternalTool).next matches Ok(
            InvocationModel::RunTool { program, .. },
        ) && program == tool_program(),
        tool_result(ToolOutcomeModel::LaunchFailed { cause }) matches Err(e) && e.kind()
            == ErrorKind::ToolInvocation && contains(e.message(), tool_program()) && contains(
            e.message(),
            cause,
        ),
{
    let head = "failed to run `"@;
    let sep = "`: "@;
    let msg = head + tool_program() + sep + cause;
    let start = head.len() as int;
    assert(msg.subrange(start, start + tool_program().len()) =~= tool_program());
    let at = start + tool_program().len() + sep.len();
    assert(msg.subrange(at, at + cause.len()) =~= cause);
}

/// Under the in-process strategy with an output directory the generator
/// library is called, and any error it returns is handed back as it came, as
/// a generation error.
pub proof fn lemma_generator_error_unchanged(
    idl_file: Seq<char>,
    out_dir: Seq<char>,
    message: Seq<char>,
)
    ensures
        plan_of(idl_file, Some(out_dir), Strategy::Builtin).next matches Ok(
            InvocationModel::CallGenerator { .. },
        ),
        generator_result(Err(message)) == Err::<(), ErrorModel>((ErrorModel::Generator { message })),
        (ErrorModel::Generator { message }).kind() == ErrorKind::Generation,
        (ErrorModel::Generator { message }).message() == message,
{
}

/// Every run, whatever follows, carries one directive, and it names exactly
/// the input path: the path is what follows the directive's fixed prefix, and
/// two paths give the same directive only where they are equal.
pub proof fn lemma_directive_names_input(
    idl_file: Seq<char>,
    other: Seq<char>,
    out_dir: Option<Seq<char>>,
    strategy: Strategy,
)
    ensures
        plan_of(idl_file, out_dir, strategy).directive == directive_of(idl_file),
        directive_of(idl_file).subrange(
            DIRECTIVE_PREFIX@.len() as int,
            directive_of(idl_file).len() as int,
        ) == idl_file,
        directive_of(idl_file) == directive_of(other) ==> idl_file == other,
{
    let p = DIRECTIVE_PREFIX@;
    assert(directive_of(idl_file).subrange(p.len() as int, directive_of(idl_file).len() as int)
        =~= idl_file);
    if directive_of(idl_file) == directive_of(other) {
        assert(directive_of(other).subrange(p.len() as int, directive_of(other).len() as int)
            =~= other);
    }
}

/// Two runs on the same input path, output directory and strategy hand the
/// generator the same invocation, which names that input path and that output
/// directory and nothing else that could change the generated file's name.
pub proof fn lemma_same_inputs_same_invocation(
    idl_file: Seq<char>,
    out_dir: Seq<char>,
    strategy: Strategy,
    idl_file2: Seq<char>,
    out_dir2: Seq<char>,
)
    requires
        idl_file == idl_file2,
        out_dir == out_dir2,
    ensures
        plan_of(idl_file, Some(out_dir), strategy) == plan_of(idl_file2, Some(out_dir2), strategy),
        match plan_of(idl_file, Some(out_dir), strategy).next {
            Ok(InvocationModel::RunTool { args, .. }) => args[2] == out_dir && args[3] == idl_file,
            Ok(InvocationModel::CallGenerator { idl_file: i, out_dir: o, .. }) => i == idl_file
                && o == out_dir,
            Err(_) => false,
        },
{
}

} // verus!
