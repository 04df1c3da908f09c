use owncode::tools::command::{bash_outcome, bash_primary_arg, bash_result, bash_spec, shell_start_failed, BashArgs};
use owncode::tools::fs::{
    read_file_primary_arg, read_file_result, read_file_spec, write_file_primary_arg, write_file_result,
    write_file_spec, ReadFileArgs, WriteFileArgs,
};
use owncode::tools::{invalid_arguments, plan_execution, primary_arg, specs, ParsedArguments, ToolKind};

#[test]
fn tool_names_round_trip() {
    for kind in [ToolKind::ReadFile, ToolKind::WriteFile, ToolKind::Bash] {
        assert_eq!(ToolKind::from_name(kind.name()), Some(kind));
    }
}

#[test]
fn tool_names_are_the_wire_names() {
    assert_eq!(ToolKind::ReadFile.name(), "read_file");
    assert_eq!(ToolKind::WriteFile.name(), "write_file");
    assert_eq!(ToolKind::Bash.name(), "bash");
    assert_eq!(ToolKind::from_name("grep"), None);
    assert_eq!(ToolKind::from_name("Bash"), None);
    assert_eq!(ToolKind::from_name(""), None);
}

#[test]
fn unknown_tool_is_refused_by_name() {
    match plan_execution("grep") {
        Err(r) => {
            assert!(!r.success);
            assert_eq!(r.output, "unknown tool : grep");
        }
        Ok(_) => panic!("grep is not a tool"),
    }
    assert!(matches!(plan_execution("bash"), Ok(ToolKind::Bash)));
}

#[test]
fn invalid_arguments_report() {
    let r = invalid_arguments("missing field `command`");
    assert!(!r.success);
    assert_eq!(r.output, "invalid arguments: missing field `command`");
}

#[test]
fn specs_are_offered_in_order() {
    let s = specs();
    assert_eq!(s.len(), 3);
    assert_eq!(s[0].name, "read_file");
    assert_eq!(s[1].name, "write_file");
    assert_eq!(s[2].name, "bash");
    assert_eq!(s[0].parameters.required, vec!["file_path"]);
    assert_eq!(s[1].parameters.required, vec!["file_path", "content"]);
    assert_eq!(s[2].parameters.required, vec!["command"]);
    assert_eq!(s[2].description, "Run a shell command. Each call is a fresh shell.");
    assert_eq!(read_file_spec().description, "Read contents of a file");
    assert_eq!(
        write_file_spec().description,
        "Write content to a file. The file is created if missing and overwritten if not."
    );
    assert_eq!(bash_spec().parameters.properties[0].description, "The command to execute");
}

fn parsed(read: Option<&str>, write: Option<(&str, &str)>, bash: Option<&str>) -> ParsedArguments {
    ParsedArguments {
        read_file: read.map(|p| ReadFileArgs { file_path: p.to_string() }),
        write_file: write.map(|(p, c)| WriteFileArgs { file_path: p.to_string(), content: c.to_string() }),
        bash: bash.map(|c| BashArgs { command: c.to_string() }),
    }
}

#[test]
fn primary_arg_picks_the_tools_main_argument() {
    let p = parsed(Some("a.txt"), Some(("b.txt", "x")), Some("ls -l"));
    assert_eq!(primary_arg("read_file", &p), Some("a.txt".to_string()));
    assert_eq!(primary_arg("write_file", &p), Some("b.txt".to_string()));
    assert_eq!(primary_arg("bash", &p), Some("ls -l".to_string()));
    assert_eq!(primary_arg("grep", &p), None);
    let none = parsed(None, None, None);
    assert_eq!(primary_arg("bash", &none), None);
    assert_eq!(read_file_primary_arg(&None), None);
    assert_eq!(write_file_primary_arg(&Some(WriteFileArgs { file_path: "p".into(), content: "c".into() })), Some("p".to_string()));
    assert_eq!(bash_primary_arg(&Some(BashArgs { command: "pwd".into() })), Some("pwd".to_string()));
}

#[test]
fn bash_output_stdout_only() {
    let r = bash_result("hello\n", "", true, Some(0));
    assert!(r.success);
    assert_eq!(r.output, "hello\n");
}

#[test]
fn bash_output_stderr_after_stdout() {
    let r = bash_result("out", "err", true, Some(0));
    assert_eq!(r.output, "out\nstderr:\nerr");
}

#[test]
fn bash_output_stderr_alone_has_no_header() {
    let r = bash_result("", "err", true, Some(0));
    assert_eq!(r.output, "err");
}

#[test]
fn bash_output_failure_reports_exit_code() {
    let r = bash_result("", "boom", false, Some(2));
    assert!(!r.success);
    assert_eq!(r.output, "boom\nexit code 2");
    let r = bash_result("", "", false, Some(127));
    assert_eq!(r.output, "\nexit code 127");
    let r = bash_result("", "", false, Some(-3));
    assert_eq!(r.output, "\nexit code -3");
}

#[test]
fn bash_output_failure_without_code_reports_minus_one() {
    let r = bash_result("x", "", false, None);
    assert_eq!(r.output, "x\nexit code -1");
}

#[test]
fn bash_output_empty_says_so() {
    let r = bash_result("", "", true, Some(0));
    assert_eq!(r.output, "(no output)");
    assert!(r.success);
}

#[test]
fn shell_start_failure_report() {
    let r = shell_start_failed("No such file or directory (os error 2)");
    assert!(!r.success);
    assert_eq!(r.output, "could not start shell: No such file or directory (os error 2)");
}

#[test]
fn read_file_results() {
    let ok = read_file_result(Ok("content".to_string()));
    assert!(ok.success);
    assert_eq!(ok.output, "content");
    let err = read_file_result(Err("not found".to_string()));
    assert!(!err.success);
    assert_eq!(err.output, "not found");
}

#[test]
fn write_file_counts_utf8_bytes() {
    let args = WriteFileArgs { file_path: "notes.txt".to_string(), content: "héllo".to_string() };
    let r = write_file_result(&args, Ok(()));
    assert!(r.success);
    assert_eq!(r.output, "wrote 6 bytes to notes.txt");
    let empty = WriteFileArgs { file_path: "e".to_string(), content: String::new() };
    assert_eq!(write_file_result(&empty, Ok(())).output, "wrote 0 bytes to e");
}

#[test]
fn write_file_failure_report() {
    let args = WriteFileArgs { file_path: "/root/x".to_string(), content: "a".to_string() };
    let r = write_file_result(&args, Err("Permission denied (os error 13)".to_string()));
    assert!(!r.success);
    assert_eq!(r.output, "failed to write /root/x: Permission denied (os error 13)");
}

#[test]
fn bash_outcome_decodes_output_bytes() {
    let r = bash_outcome("héllo".as_bytes(), b"", true, Some(0));
    assert_eq!(r.output, "héllo");
    let r = bash_outcome(&[0x66, 0xff, 0x67], b"e", false, Some(1));
    assert!(!r.success);
    assert_eq!(r.output, "f\u{FFFD}g\nstderr:\ne\nexit code 1");
}
