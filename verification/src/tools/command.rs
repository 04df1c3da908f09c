//! The shell tool.

use vstd::prelude::*;

use vstd::utf8::{decode_utf8, valid_utf8};

use crate::text::{push_signed_decimal, signed_decimal};
use crate::tools::{ParamProperty, ParamSchema, ToolKind, ToolResult, ToolSpec, tool_name};

verus! {

/// The arguments of `bash`.
#[derive(Debug)]
pub struct BashArgs {
    pub command: String,
}

/// The text reported for a finished command: its standard output, then its
/// standard error (after a `stderr:` header when there was output before it),
/// then the exit code when the command failed (`-1` when it has none, as
/// when a signal ended it); `(no output)` when all of that is empty.
pub open spec fn bash_output_text(
    stdout: Seq<char>,
    stderr: Seq<char>,
    success: bool,
    code: Option<i32>,
) -> Seq<char> {
    let t1 = stdout;
    let t2 = if stderr.len() == 0 {
        t1
    } else if t1.len() == 0 {
        stderr
    } else {
        t1 + "\n"@ + "stderr:\n"@ + stderr
    };
    let c: int = match code {
        Some(v) => v as int,
        None => -1,
    };
    let t3 = if success {
        t2
    } else {
        t2 + "\n"@ + "exit code "@ + signed_decimal(c)
    };
    if t3.len() == 0 {
        "(no output)"@
    } else {
        t3
    }
}

/// A finished command always reports some text.
pub proof fn lemma_bash_output_not_empty(
    stdout: Seq<char>,
    stderr: Seq<char>,
    success: bool,
    code: Option<i32>,
)
    ensures
        bash_output_text(stdout, stderr, success, code).len() > 0,
{
    reveal_strlit("(no output)");
}

/// The result of a command that ran: its output as `bash_output_text` says,
/// successful exactly when the command exited successfully.
pub fn bash_result(stdout: &str, stderr: &str, success: bool, code: Option<i32>) -> (res: ToolResult)
    ensures
        res.success == success,
        res.output@ == bash_output_text(stdout@, stderr@, success, code),
{
    let mut text = String::new();
    if stdout.unicode_len() > 0 {
        text.append(stdout);
    }
    if stderr.unicode_len() > 0 {
        if text.as_str().unicode_len() > 0 {
            text.append("\n");
            text.append("stderr:\n");
        }
        text.append(stderr);
    }
    if !success {
        text.append("\n");
        text.append("exit code ");
        let c: i32 = match code {
            Some(v) => v,
            None => -1,
        };
        push_signed_decimal(&mut text, c);
    }
    if text.as_str().unicode_len() == 0 {
        text.append("(no output)");
    }
    proof {
        assert(Seq::<char>::empty() + stdout@ =~= stdout@);
        assert(Seq::<char>::empty() + stderr@ =~= stderr@);
        assert(Seq::<char>::empty() + "(no output)"@ =~= "(no output)"@);
    }
    ToolResult { output: text, success }
}

/// The text `String::from_utf8_lossy` makes of these bytes: each invalid
/// sequence becomes U+FFFD.
pub uninterp spec fn lossy_decoding(bytes: Seq<u8>) -> Seq<char>;

/// `String::from_utf8_lossy`: the bytes as text, decoded exactly when they
/// are valid UTF-8; otherwise as the name `lossy_decoding` says.
#[verifier::external_body]
fn text_of_output(bytes: &[u8]) -> (res: String)
    ensures
        res@ == lossy_decoding(bytes@),
        valid_utf8(bytes@) ==> res@ == decode_utf8(bytes@),
{
    String::from_utf8_lossy(bytes).into_owned()
}

/// The result of a command that ran, from the raw bytes it wrote to its
/// standard output and standard error.
pub fn bash_outcome(stdout: &[u8], stderr: &[u8], success: bool, code: Option<i32>) -> (res: ToolResult)
    ensures
        res.success == success,
        res.output@ == bash_output_text(
            lossy_decoding(stdout@),
            lossy_decoding(stderr@),
            success,
            code,
        ),
        valid_utf8(stdout@) && valid_utf8(stderr@) ==> res.output@ == bash_output_text(
            decode_utf8(stdout@),
            decode_utf8(stderr@),
            success,
            code,
        ),
{
    let out = text_of_output(stdout);
    let err = text_of_output(stderr);
    bash_result(out.as_str(), err.as_str(), success, code)
}

/// The text reported when the shell could not be started.
pub open spec fn shell_start_failed_text(error: Seq<char>) -> Seq<char> {
    "could not start shell: "@ + error
}

/// The failed result when the shell could not be started.
pub fn shell_start_failed(error: &str) -> (res: ToolResult)
    ensures
        !res.success,
        res.output@ == shell_start_failed_text(error@),
{
    let mut output = String::new();
    output.append("could not start shell: ");
    output.append(error);
    ToolResult { output, success: false }
}

/// The spec offered for `bash`.
pub open spec fn is_bash_spec(t: ToolSpec) -> bool {
    &&& t.name@ == tool_name(ToolKind::Bash)
    &&& t.description@ == "Run a shell command. Each call is a fresh shell."@
    &&& t.parameters.required@.len() == 1
    &&& t.parameters.required@[0]@ == "command"@
    &&& t.parameters.properties@.len() == 1
    &&& t.parameters.properties@[0].name@ == "command"@
    &&& t.parameters.properties@[0].description@ == "The command to execute"@
}

pub fn bash_spec() -> (res: ToolSpec)
    ensures
        is_bash_spec(res),
{
    let mut required: Vec<&'static str> = Vec::new();
    required.push("command");
    let mut properties: Vec<ParamProperty> = Vec::new();
    properties.push(ParamProperty { name: "command", description: "The command to execute" });
    ToolSpec {
        name: ToolKind::Bash.name(),
        description: "Run a shell command. Each call is a fresh shell.",
        parameters: ParamSchema { required, properties },
    }
}

/// The command of a `bash` call whose arguments parsed.
pub fn bash_primary_arg(parsed: &Option<BashArgs>) -> (res: Option<String>)
    ensures
        res == (match *parsed {
            Some(a) => Some(a.command),
            None => None::<String>,
        }),
{
    match parsed {
        Some(a) => Some(a.command.clone()),
        None => None,
    }
}

} // verus!
