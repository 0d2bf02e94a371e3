use uniffi_build::{
    finish_generator, finish_tool, plan_scaffolding, rerun_directive, resolve_out_dir,
    tool_arguments, BridgeError, ErrorKind, Invocation, Plan, Strategy, ToolOutcome,
    OUT_DIR_VARIABLE, TOOL_PROGRAM,
};

fn strings(v: &[&str]) -> Vec<String> {
    v.iter().map(|s| s.to_string()).collect()
}

fn tool_args(plan: &Plan) -> (String, Vec<String>) {
    match &plan.next {
        Ok(Invocation::RunTool { program, args }) => (program.clone(), args.clone()),
        other => panic!("expected a tool run, got {:?}", other),
    }
}

#[test]
fn directive_names_the_input_path() {
    assert_eq!(rerun_directive("example.idl"), "cargo:rerun-if-changed=example.idl");
    assert_eq!(rerun_directive("src/a b.udl"), "cargo:rerun-if-changed=src/a b.udl");
    assert_eq!(rerun_directive(""), "cargo:rerun-if-changed=");
}

#[test]
fn out_dir_is_resolved_when_present() {
    match resolve_out_dir(Some("/tmp/build123".to_string())) {
        Ok(d) => assert_eq!(d, "/tmp/build123"),
        Err(e) => panic!("unexpected error {:?}", e),
    }
}

#[test]
fn absent_out_dir_is_a_configuration_error() {
    match resolve_out_dir(None) {
        Err(e) => {
            assert!(matches!(e, BridgeError::MissingOutDir));
            assert_eq!(e.kind(), ErrorKind::Configuration);
            assert_eq!(e.message(), "$OUT_DIR missing?!");
        }
        Ok(d) => panic!("unexpected directory {}", d),
    }
    assert_eq!(OUT_DIR_VARIABLE, "OUT_DIR");
}

#[test]
fn tool_arguments_in_order() {
    assert_eq!(
        tool_arguments("/tmp/build123", "example.idl"),
        strings(&["scaffolding", "--out-dir", "/tmp/build123", "example.idl"])
    );
}

#[test]
fn external_run_of_example_succeeds_on_exit_zero() {
    let plan = plan_scaffolding("example.idl", Some("/tmp/build123".to_string()), Strategy::ExternalTool);
    assert_eq!(plan.directive, "cargo:rerun-if-changed=example.idl");
    let (program, args) = tool_args(&plan);
    assert_eq!(program, "uniffi-bindgen");
    assert_eq!(program, TOOL_PROGRAM);
    assert_eq!(args, strings(&["scaffolding", "--out-dir", "/tmp/build123", "example.idl"]));
    assert!(finish_tool(ToolOutcome::Exited { success: true }).is_ok());
}

#[test]
fn external_run_of_example_fails_on_exit_one() {
    let plan = plan_scaffolding("example.idl", Some("/tmp/build123".to_string()), Strategy::ExternalTool);
    assert!(plan.next.is_ok());
    match finish_tool(ToolOutcome::Exited { success: false }) {
        Err(e) => {
            assert!(matches!(e, BridgeError::ToolFailed));
            assert_eq!(e.kind(), ErrorKind::Generation);
            assert_eq!(e.message(), "Error while generating scaffolding code");
        }
        Ok(()) => panic!("a failed exit must not succeed"),
    }
}

#[test]
fn missing_tool_is_a_tool_invocation_error_naming_it() {
    let cause = "No such file or directory (os error 2)";
    match finish_tool(ToolOutcome::LaunchFailed { cause: cause.to_string() }) {
        Err(e) => {
            assert_eq!(e.kind(), ErrorKind::ToolInvocation);
            let m = e.message();
            assert_eq!(m, "failed to run `uniffi-bindgen`: No such file or directory (os error 2)");
            assert!(m.contains(TOOL_PROGRAM));
            assert!(m.contains(cause));
        }
        Ok(()) => panic!("a launch failure must not succeed"),
    }
}

#[test]
fn missing_out_dir_invokes_nothing_under_either_strategy() {
    for strategy in [Strategy::ExternalTool, Strategy::Builtin] {
        let plan = plan_scaffolding("example.idl", None, strategy);
        match &plan.next {
            Err(e) => assert_eq!(e.kind(), ErrorKind::Configuration),
            Ok(inv) => panic!("nothing may be invoked, got {:?}", inv),
        }
    }
}

#[test]
fn directive_is_planned_on_every_branch() {
    let cases = [
        (None, Strategy::ExternalTool),
        (None, Strategy::Builtin),
        (Some("/out"), Strategy::ExternalTool),
        (Some("/out"), Strategy::Builtin),
    ];
    for (dir, strategy) in cases {
        let plan = plan_scaffolding("api/example.idl", dir.map(|d| d.to_string()), strategy);
        assert_eq!(plan.directive, "cargo:rerun-if-changed=api/example.idl");
    }
}

#[test]
fn builtin_strategy_calls_the_generator() {
    let plan = plan_scaffolding("example.idl", Some("/tmp/build123".to_string()), Strategy::Builtin);
    match plan.next {
        Ok(Invocation::CallGenerator { idl_file, out_dir, format_code }) => {
            assert_eq!(idl_file, "example.idl");
            assert_eq!(out_dir, "/tmp/build123");
            assert!(format_code);
        }
        other => panic!("expected a generator call, got {:?}", other),
    }
}

#[test]
fn generator_error_is_returned_unchanged() {
    let text = "parsing udl file example.idl: unexpected token";
    match finish_generator(Err(text.to_string())) {
        Err(e) => {
            assert_eq!(e.kind(), ErrorKind::Generation);
            assert_eq!(e.message(), text);
            match e {
                BridgeError::Generator { message } => assert_eq!(message, text),
                other => panic!("expected the generator's error, got {:?}", other),
            }
        }
        Ok(()) => panic!("a generator error must not succeed"),
    }
    assert!(finish_generator(Ok(())).is_ok());
}

#[test]
fn same_inputs_give_the_same_invocation() {
    for strategy in [Strategy::ExternalTool, Strategy::Builtin] {
        let a = plan_scaffolding("example.idl", Some("/tmp/build123".to_string()), strategy);
        let b = plan_scaffolding("example.idl", Some("/tmp/build123".to_string()), strategy);
        assert_eq!(a.directive, b.directive);
        assert_eq!(format!("{:?}", a.next), format!("{:?}", b.next));
    }
}
