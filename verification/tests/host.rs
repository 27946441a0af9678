use nu_plugin_kcl::failure::{Failure, Operation};
use nu_plugin_kcl::host::{
    command_name, directory_or_default, host_result, label_failure, run_request, LabeledFailure,
    RunRequest,
};
use nu_plugin_kcl::invocation::{InvocationResult, Launch};

fn strings(items: &[&str]) -> Vec<String> {
    items.iter().map(|s| s.to_string()).collect()
}

#[test]
fn command_names() {
    assert_eq!(command_name(Operation::Run), "kcl-run");
    assert_eq!(command_name(Operation::Format), "kcl-format");
    assert_eq!(command_name(Operation::Validate), "kcl-validate");
}

#[test]
fn run_request_defaults() {
    let request = run_request("main.k", &None, &None, &None);
    assert_eq!(
        request,
        RunRequest {
            file: "main.k".to_string(),
            format: "yaml".to_string(),
            output: None,
            definitions: Vec::new(),
        }
    );
    assert_eq!(
        request.invocation().command_line().arguments,
        strings(&["run", "main.k", "--format", "yaml"])
    );
}

#[test]
fn run_request_takes_what_is_given() {
    let request = run_request(
        "myfile.k",
        &Some("json".to_string()),
        &Some("out.json".to_string()),
        &Some(vec![Some("foo=bar".to_string()), None, Some("x=1".to_string()), None]),
    );
    assert_eq!(request.file, "myfile.k");
    assert_eq!(request.format, "json");
    assert_eq!(request.output, Some("out.json".to_string()));
    assert_eq!(request.definitions, strings(&["foo=bar", "x=1"]));
    assert_eq!(
        request.invocation().command_line().arguments,
        strings(&[
            "run", "myfile.k", "--format", "json", "-D", "foo=bar", "-D", "x=1", "-o", "out.json",
        ])
    );
    let done = Launch::Completed(InvocationResult {
        exit_status: Some(0),
        stdout: "{}".to_string(),
        stderr: String::new(),
    });
    assert_eq!(request.outcome(&done), Ok("✅ out.json".to_string()));
}

#[test]
fn run_request_without_text_definitions() {
    let request = run_request("a.k", &None, &None, &Some(vec![None, None]));
    assert_eq!(request.definitions, strings(&[]));
    let request = run_request("a.k", &None, &None, &Some(vec![]));
    assert_eq!(request.definitions, strings(&[]));
}

#[test]
fn directory_defaults_to_the_current_one() {
    assert_eq!(directory_or_default(None), ".");
    assert_eq!(directory_or_default(Some("./project_dir".to_string())), "./project_dir");
    assert_eq!(directory_or_default(Some(String::new())), "");
}

#[test]
fn failures_are_labelled() {
    assert_eq!(
        label_failure(Operation::Run, &Failure::Tool("bad".to_string())),
        LabeledFailure { title: "Error executing KCL".to_string(), label: "❌: bad".to_string() }
    );
    assert_eq!(
        label_failure(Operation::Format, &Failure::Launch("gone".to_string())),
        LabeledFailure {
            title: "Error formatting KCL".to_string(),
            label: "Error executing kcl fmt: gone".to_string(),
        }
    );
    assert_eq!(
        label_failure(Operation::Validate, &Failure::Discovery("gone".to_string())),
        LabeledFailure {
            title: "Error validating KCL project".to_string(),
            label: "Error finding KCL files: gone".to_string(),
        }
    );
}

#[test]
fn host_result_passes_success_through() {
    assert_eq!(host_result(Operation::Run, Ok("✅ x".to_string())), Ok("✅ x".to_string()));
    assert_eq!(
        host_result(Operation::Format, Err(Failure::Tool("e".to_string()))),
        Err(LabeledFailure {
            title: "Error formatting KCL".to_string(),
            label: "KCL format failed: e".to_string(),
        })
    );
}
