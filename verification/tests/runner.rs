use nu_plugin_kcl::failure::{Failure, Operation};
use nu_plugin_kcl::invocation::{Captured, CommandLine, InvocationResult, Launch};
use nu_plugin_kcl::runner::{format_invocation, format_outcome, run_invocation, run_outcome};

fn completed(code: Option<i32>, stdout: &str, stderr: &str) -> Launch {
    Launch::Completed(InvocationResult {
        exit_status: code,
        stdout: stdout.to_string(),
        stderr: stderr.to_string(),
    })
}

fn strings(items: &[&str]) -> Vec<String> {
    items.iter().map(|s| s.to_string()).collect()
}

#[test]
fn test_run_kcl_command_success() {
    let path = "/tmp/example.k";
    let call = run_invocation(path, "yaml", &None, &Vec::new());
    let line = call.command_line();
    assert_eq!(line.program, "kcl");
    assert_eq!(line.arguments, strings(&["run", path, "--format", "yaml"]));
    let res = run_outcome(&completed(Some(0), "a: 1\n", ""), &None);
    assert!(res.is_ok(), "Expected Ok, got: {:?}", res);
    let out = match res {
        Ok(out) => out,
        Err(_) => panic!("run_kcl_command returned Err unexpectedly"),
    };
    assert!(out.contains("a = 1") || out.contains("✅") || out.contains("a: 1"));
    assert_eq!(out, "✅ a: 1\n");
}

#[test]
fn test_format_kcl_file_success() {
    let path = "/tmp/example.k";
    let line = format_invocation(path).command_line();
    assert_eq!(line.program, "kcl");
    assert_eq!(line.arguments, strings(&["fmt", path]));
    let res = format_outcome(path, &completed(Some(0), "", ""));
    assert!(res.is_ok(), "Expected Ok, got: {:?}", res);
    let out = match res {
        Ok(out) => out,
        Err(_) => panic!("format_kcl_file returned Err unexpectedly"),
    };
    assert!(out.contains("formatted"));
    assert_eq!(out, "✅ File formatted: /tmp/example.k");
}

#[test]
fn test_run_kcl_command_fail() {
    let call = run_invocation("nonexistent.k", "yaml", &None, &Vec::new());
    assert_eq!(
        call.command_line().arguments,
        strings(&["run", "nonexistent.k", "--format", "yaml"])
    );
    let res = run_outcome(
        &completed(Some(1), "", "error: cannot find nonexistent.k\n"),
        &None,
    );
    assert!(res.is_err(), "Expected Err, got: {:?}", res);
    assert_eq!(
        res,
        Err(Failure::Tool("error: cannot find nonexistent.k\n".to_string()))
    );
}

#[test]
fn run_arguments_hold_definitions_then_output() {
    let call = run_invocation(
        "main.k",
        "json",
        &Some("out.json".to_string()),
        &strings(&["foo=bar", "n=1"]),
    );
    assert_eq!(
        call.command_line(),
        CommandLine {
            program: "kcl".to_string(),
            arguments: strings(&[
                "run", "main.k", "--format", "json", "-D", "foo=bar", "-D", "n=1", "-o",
                "out.json",
            ]),
        }
    );
}

#[test]
fn run_invocation_keeps_its_parts() {
    let call = run_invocation("main.k", "json", &None, &strings(&["a=b"]));
    assert_eq!(call.executable, "kcl");
    assert_eq!(call.subcommand, "run");
    assert_eq!(call.file, "main.k");
    assert_eq!(call.format, Some("json".to_string()));
    assert_eq!(call.output, None);
    assert_eq!(call.definitions, strings(&["a=b"]));
}

#[test]
fn run_with_output_path_names_the_path() {
    let res = run_outcome(
        &completed(Some(0), "ignored", ""),
        &Some("out.yaml".to_string()),
    );
    assert_eq!(res, Ok("✅ out.yaml".to_string()));
}

#[test]
fn run_with_empty_stdout_is_the_bare_mark() {
    let res = run_outcome(&completed(Some(0), "", "warning"), &None);
    assert_eq!(res, Ok("✅ ".to_string()));
}

#[test]
fn run_nonzero_exit_carries_stderr_verbatim() {
    let res = run_outcome(&completed(Some(2), "partial", "boom\n"), &None);
    assert_eq!(res, Err(Failure::Tool("boom\n".to_string())));
    let res = run_outcome(&completed(Some(2), "partial", ""), &Some("o".to_string()));
    assert_eq!(res, Err(Failure::Tool(String::new())));
}

#[test]
fn run_without_exit_code_is_a_tool_failure() {
    let res = run_outcome(&completed(None, "", "killed"), &None);
    assert_eq!(res, Err(Failure::Tool("killed".to_string())));
}

#[test]
fn run_launch_failure_is_kept_apart() {
    let res = run_outcome(&Launch::Failed("No such file or directory".to_string()), &None);
    assert_eq!(
        res,
        Err(Failure::Launch("No such file or directory".to_string()))
    );
}

#[test]
fn format_failures() {
    let res = format_outcome("a.k", &completed(Some(1), "", "bad syntax"));
    assert_eq!(res, Err(Failure::Tool("bad syntax".to_string())));
    let res = format_outcome("a.k", &Launch::Failed("not found".to_string()));
    assert_eq!(res, Err(Failure::Launch("not found".to_string())));
}

#[test]
fn format_twice_gives_the_same_confirmation() {
    let first = format_outcome("a.k", &completed(Some(0), "formatted 1 file", ""));
    let second = format_outcome("a.k", &completed(Some(0), "", "nothing to do"));
    assert_eq!(first, second);
    assert_eq!(first, Ok("✅ File formatted: a.k".to_string()));
}

#[test]
fn failures_are_described_by_operation() {
    let launch = Failure::Launch("denied".to_string());
    let tool = Failure::Tool("oops".to_string());
    let discovery = Failure::Discovery("no dir".to_string());
    assert_eq!(launch.describe(Operation::Run), "Error executing kcl: denied");
    assert_eq!(launch.describe(Operation::Format), "Error executing kcl fmt: denied");
    assert_eq!(launch.describe(Operation::Validate), "Error executing kcl: denied");
    assert_eq!(tool.describe(Operation::Run), "❌: oops");
    assert_eq!(tool.describe(Operation::Format), "KCL format failed: oops");
    assert_eq!(tool.describe(Operation::Validate), "❌: oops");
    assert_eq!(discovery.describe(Operation::Validate), "Error finding KCL files: no dir");
    assert_eq!(discovery.describe(Operation::Run), "Error finding KCL files: no dir");
    assert_eq!(launch.detail(), "denied");
    assert_eq!(tool.detail(), "oops");
    assert_eq!(discovery.detail(), "no dir");
}

#[test]
fn success_means_exit_code_zero() {
    let result = |code| InvocationResult {
        exit_status: code,
        stdout: String::new(),
        stderr: String::new(),
    };
    assert!(result(Some(0)).success());
    assert!(!result(Some(1)).success());
    assert!(!result(Some(-1)).success());
    assert!(!result(None).success());
}

#[test]
fn captured_bytes_are_decoded_to_text() {
    let captured = Captured {
        exit_status: Some(0),
        stdout: "a: 1\n✅".as_bytes().to_vec(),
        stderr: vec![b'e', b'r', b'r'],
    };
    let result = captured.decode();
    assert_eq!(result.exit_status, Some(0));
    assert_eq!(result.stdout, "a: 1\n✅");
    assert_eq!(result.stderr, "err");
}

#[test]
fn captured_bytes_that_are_not_utf8_are_replaced() {
    let captured = Captured {
        exit_status: Some(3),
        stdout: vec![b'a', 0xff, b'b'],
        stderr: vec![0xe2, 0x9c],
    };
    let result = captured.decode();
    assert_eq!(result.exit_status, Some(3));
    assert_eq!(result.stdout, "a\u{fffd}b");
    assert_eq!(result.stderr, "\u{fffd}");
}
