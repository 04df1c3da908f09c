//! The file tools: reading and writing a file.

use vstd::prelude::*;
use vstd::utf8::encode_utf8;

use crate::text::{decimal, push_decimal};
use crate::tools::{ParamProperty, ParamSchema, ToolKind, ToolResult, ToolSpec, tool_name};

verus! {

/// The arguments of `read_file`.
#[derive(Debug)]
pub struct ReadFileArgs {
    pub file_path: String,
}

/// The arguments of `write_file`.
#[derive(Debug)]
pub struct WriteFileArgs {
    pub file_path: String,
    pub content: String,
}

/// The result of `read_file` once the file was read, or failed to be read
/// with the given message.
pub fn read_file_result(outcome: Result<String, String>) -> (res: ToolResult)
    ensures
        outcome matches Ok(content) ==> res.success && res.output == content,
        outcome matches Err(e) ==> !res.success && res.output == e,
{
    match outcome {
        Ok(content) => ToolResult { output: content, success: true },
        Err(e) => ToolResult { output: e, success: false },
    }
}

/// The report of a successful write: the number of UTF-8 bytes and the path.
pub open spec fn wrote_text(args: WriteFileArgs) -> Seq<char> {
    "wrote "@ + decimal(encode_utf8(args.content@).len()) + " bytes to "@
        + args.file_path@
}

/// The report of a failed write: the path and the error's message.
pub open spec fn write_failed_text(args: WriteFileArgs, error: Seq<char>) -> Seq<char> {
    "failed to write "@ + args.file_path@ + ": "@ + error
}

/// The result of `write_file` once the write succeeded or failed with the
/// given message.
pub fn write_file_result(args: &WriteFileArgs, outcome: Result<(), String>) -> (res: ToolResult)
    requires
        encode_utf8(args.content@).len() <= usize::MAX,
    ensures
        outcome is Ok ==> res.success && res.output@ == wrote_text(*args),
        outcome matches Err(e) ==> !res.success && res.output@ == write_failed_text(*args, e@),
{
    let mut output = String::new();
    match outcome {
        Ok(()) => {
            output.append("wrote ");
            let n = args.content.as_str().len();
            push_decimal(&mut output, n as u64);
            output.append(" bytes to ");
            output.append(args.file_path.as_str());
            ToolResult { output, success: true }
        },
        Err(e) => {
            output.append("failed to write ");
            output.append(args.file_path.as_str());
            output.append(": ");
            output.append(e.as_str());
            ToolResult { output, success: false }
        },
    }
}

/// The spec offered for `read_file`.
pub open spec fn is_read_file_spec(t: ToolSpec) -> bool {
    &&& t.name@ == tool_name(ToolKind::ReadFile)
    &&& t.description@ == "Read contents of a file"@
    &&& t.parameters.required@.len() == 1
    &&& t.parameters.required@[0]@ == "file_path"@
    &&& t.parameters.properties@.len() == 1
    &&& t.parameters.properties@[0].name@ == "file_path"@
    &&& t.parameters.properties@[0].description@ == "The path to the file to read"@
}

pub fn read_file_spec() -> (res: ToolSpec)
    ensures
        is_read_file_spec(res),
{
    let mut required: Vec<&'static str> = Vec::new();
    required.push("file_path");
    let mut properties: Vec<ParamProperty> = Vec::new();
    properties.push(ParamProperty { name: "file_path", description: "The path to the file to read" });
    ToolSpec {
        name: ToolKind::ReadFile.name(),
        description: "Read contents of a file",
        parameters: ParamSchema { required, properties },
    }
}

/// The spec offered for `write_file`.
pub open spec fn is_write_file_spec(t: ToolSpec) -> bool {
    &&& t.name@ == tool_name(ToolKind::WriteFile)
    &&& t.description@ == "Write content to a file. The file is created if missing and overwritten if not."@
    &&& t.parameters.required@.len() == 2
    &&& t.parameters.required@[0]@ == "file_path"@
    &&& t.parameters.required@[1]@ == "content"@
    &&& t.parameters.properties@.len() == 2
    &&& t.parameters.properties@[0].name@ == "file_path"@
    &&& t.parameters.properties@[0].description@ == "The path of the file to write to"@
    &&& t.parameters.properties@[1].name@ == "content"@
    &&& t.parameters.properties@[1].description@ == "The content to write to the file"@
}

pub fn write_file_spec() -> (res: ToolSpec)
    ensures
        is_write_file_spec(res),
{
    let mut required: Vec<&'static str> = Vec::new();
    required.push("file_path");
    required.push("content");
    let mut properties: Vec<ParamProperty> = Vec::new();
    properties.push(
        ParamProperty { name: "file_path", description: "The path of the file to write to" },
    );
    properties.push(
        ParamProperty { name: "content", description: "The content to write to the file" },
    );
    ToolSpec {
        name: ToolKind::WriteFile.name(),
        description: "Write content to a file. The file is created if missing and overwritten if not.",
        parameters: ParamSchema { required, properties },
    }
}

/// The path of a `read_file` call whose arguments parsed.
pub fn read_file_primary_arg(parsed: &Option<ReadFileArgs>) -> (res: Option<String>)
    ensures
        res == (match *parsed {
            Some(a) => Some(a.file_path),
            None => None::<String>,
        }),
{
    match parsed {
        Some(a) => Some(a.file_path.clone()),
        None => None,
    }
}

/// The path of a `write_file` call whose arguments parsed.
pub fn write_file_primary_arg(parsed: &Option<WriteFileArgs>) -> (res: Option<String>)
    ensures
        res == (match *parsed {
            Some(a) => Some(a.file_path),
            None => None::<String>,
        }),
{
    match parsed {
        Some(a) => Some(a.file_path.clone()),
        None => None,
    }
}

} // verus!
