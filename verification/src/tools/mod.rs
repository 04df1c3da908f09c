//! The built-in tools the model may call: their names, their schemas, and how
//! a call's outcome becomes the text handed back to the model.

use vstd::prelude::*;

use crate::text::str_eq;

pub mod command;
pub mod fs;

use command::{bash_primary_arg, bash_spec, is_bash_spec, BashArgs};
use fs::{
    is_read_file_spec, is_write_file_spec, read_file_primary_arg, read_file_spec,
    write_file_primary_arg, write_file_spec, ReadFileArgs, WriteFileArgs,
};

verus! {

/// The tools this agent offers.
#[derive(Debug, Clone, Copy, PartialEq, Eq, Structural)]
pub enum ToolKind {
    ReadFile,
    WriteFile,
    Bash,
}

/// The wire name of each tool.
pub open spec fn tool_name(kind: ToolKind) -> Seq<char> {
    match kind {
        ToolKind::ReadFile => "read_file"@,
        ToolKind::WriteFile => "write_file"@,
        ToolKind::Bash => "bash"@,
    }
}

/// The tool that a wire name designates, if any.
pub open spec fn tool_of_name(name: Seq<char>) -> Option<ToolKind> {
    if name == "read_file"@ {
        Some(ToolKind::ReadFile)
    } else if name == "write_file"@ {
        Some(ToolKind::WriteFile)
    } else if name == "bash"@ {
        Some(ToolKind::Bash)
    } else {
        None
    }
}

impl ToolKind {
    pub fn from_name(name: &str) -> (res: Option<ToolKind>)
        ensures
            res == tool_of_name(name@),
    {
        if str_eq(name, "read_file") {
            Some(ToolKind::ReadFile)
        } else if str_eq(name, "write_file") {
            Some(ToolKind::WriteFile)
        } else if str_eq(name, "bash") {
            Some(ToolKind::Bash)
        } else {
            None
        }
    }

    pub fn name(&self) -> (res: &'static str)
        ensures
            res@ == tool_name(*self),
    {
        match self {
            ToolKind::ReadFile => "read_file",
            ToolKind::WriteFile => "write_file",
            ToolKind::Bash => "bash",
        }
    }
}

/// Every tool is found again by its own name.
pub proof fn lemma_name_round_trip(kind: ToolKind)
    ensures
        tool_of_name(tool_name(kind)) == Some(kind),
{
    reveal_strlit("read_file");
    reveal_strlit("write_file");
    reveal_strlit("bash");
    assert("read_file"@.len() == 9);
    assert("write_file"@.len() == 10);
    assert("bash"@.len() == 4);
    match kind {
        ToolKind::ReadFile => {},
        ToolKind::WriteFile => {
            assert("write_file"@ != "read_file"@);
        },
        ToolKind::Bash => {
            assert("bash"@ != "read_file"@);
            assert("bash"@ != "write_file"@);
        },
    }
}

/// A name is accepted only as the exact name of the tool it designates.
pub proof fn lemma_name_accepted_exactly(name: Seq<char>)
    ensures
        tool_of_name(name) matches Some(kind) ==> tool_name(kind) == name,
{
}

/// What a tool call produced: the text for the model, and whether it succeeded.
pub struct ToolResult {
    pub output: String,
    pub success: bool,
}

/// One string property of a tool's parameter object.
#[derive(Debug, Clone, Copy)]
pub struct ParamProperty {
    pub name: &'static str,
    pub description: &'static str,
}

/// Every offered spec is under its tool's own name, in the order of
/// `offered_kinds`, and asks only for parameters it describes.
pub proof fn lemma_specs_well_formed(specs: Seq<ToolSpec>)
    requires
        specs.len() == offered_kinds().len(),
        is_read_file_spec(specs[0]),
        is_write_file_spec(specs[1]),
        is_bash_spec(specs[2]),
    ensures
        forall|i: int|
            0 <= i < specs.len() ==> (#[trigger] specs[i]).name@ == tool_name(offered_kinds()[i])
                && schema_well_formed(specs[i].parameters),
{
    assert forall|i: int| 0 <= i < specs.len() implies (#[trigger] specs[i]).name@ == tool_name(
        offered_kinds()[i],
    ) && schema_well_formed(specs[i].parameters) by {
        let p = specs[i].parameters;
        assert forall|r: int| 0 <= r < p.required@.len() implies exists|j: int|
            0 <= j < p.properties@.len() && (#[trigger] p.required@[r])@ == p.properties@[j].name@ by {
            assert(p.required@[r]@ == p.properties@[r].name@);
        }
    }
}

/// A tool's parameters: a JSON object whose properties are all strings.
#[derive(Debug)]
pub struct ParamSchema {
    pub required: Vec<&'static str>,
    pub properties: Vec<ParamProperty>,
}

/// Two schemas with the same required names and properties.
pub open spec fn same_schema(a: ParamSchema, b: ParamSchema) -> bool {
    a.required@ == b.required@ && a.properties@ == b.properties@
}

/// Two schemas count as the same only when both their required names and
/// their properties (names and descriptions) agree.
pub proof fn lemma_same_schema_is_whole(a: ParamSchema, b: ParamSchema)
    ensures
        same_schema(a, b) <==> (a.required@ == b.required@ && a.properties@ == b.properties@),
{
}

impl ParamSchema {
    /// A copy with the same required names and properties.
    pub fn duplicate(&self) -> (res: ParamSchema)
        ensures
            same_schema(res, *self),
            res.required@ == self.required@,
            res.properties@ == self.properties@,
    {
        let mut required: Vec<&'static str> = Vec::new();
        let mut i: usize = 0;
        while i < self.required.len()
            invariant
                i <= self.required@.len(),
                required@ == self.required@.take(i as int),
            decreases self.required@.len() - i,
        {
            required.push(self.required[i]);
            i = i + 1;
            assert(required@ =~= self.required@.take(i as int));
        }
        let mut properties: Vec<ParamProperty> = Vec::new();
        let mut j: usize = 0;
        while j < self.properties.len()
            invariant
                j <= self.properties@.len(),
                properties@ == self.properties@.take(j as int),
            decreases self.properties@.len() - j,
        {
            properties.push(self.properties[j]);
            j = j + 1;
            assert(properties@ =~= self.properties@.take(j as int));
        }
        assert(required@ =~= self.required@);
        assert(properties@ =~= self.properties@);
        ParamSchema { required, properties }
    }
}

/// How a tool is described to the model.
#[derive(Debug)]
pub struct ToolSpec {
    pub name: &'static str,
    pub description: &'static str,
    pub parameters: ParamSchema,
}

/// Each required parameter is one of the schema's properties.
pub open spec fn schema_well_formed(schema: ParamSchema) -> bool {
    forall|i: int|
        0 <= i < schema.required@.len() ==> exists|j: int|
            0 <= j < schema.properties@.len() && (#[trigger] schema.required@[i])@
                == schema.properties@[j].name@
}

/// The tools in the order they are offered to the model.
pub open spec fn offered_kinds() -> Seq<ToolKind> {
    seq![ToolKind::ReadFile, ToolKind::WriteFile, ToolKind::Bash]
}

/// The tool specs offered to the model: one per tool, under the tool's own
/// name, in the order of `offered_kinds`, each schema well formed.
pub fn specs() -> (res: Vec<ToolSpec>)
    ensures
        res@.len() == offered_kinds().len(),
        is_read_file_spec(res@[0]),
        is_write_file_spec(res@[1]),
        is_bash_spec(res@[2]),
{
    let mut v: Vec<ToolSpec> = Vec::new();
    v.push(read_file_spec());
    v.push(write_file_spec());
    v.push(bash_spec());
    v
}

/// The outcomes of reading one call's JSON arguments as each tool's
/// argument record (`None` where they do not parse as that record).
pub struct ParsedArguments {
    pub read_file: Option<ReadFileArgs>,
    pub write_file: Option<WriteFileArgs>,
    pub bash: Option<BashArgs>,
}

/// The argument shown beside a tool call: the path for the file tools, the
/// command for the shell.
pub open spec fn spec_primary_arg(name: Seq<char>, parsed: ParsedArguments) -> Option<Seq<char>> {
    match tool_of_name(name) {
        None => None,
        Some(ToolKind::ReadFile) => match parsed.read_file {
            Some(a) => Some(a.file_path@),
            None => None,
        },
        Some(ToolKind::WriteFile) => match parsed.write_file {
            Some(a) => Some(a.file_path@),
            None => None,
        },
        Some(ToolKind::Bash) => match parsed.bash {
            Some(a) => Some(a.command@),
            None => None,
        },
    }
}

pub open spec fn opt_view(o: Option<String>) -> Option<Seq<char>> {
    match o {
        Some(s) => Some(s@),
        None => None,
    }
}

/// The argument worth showing for a call of the tool `name`, from its parsed
/// arguments.
pub fn primary_arg(name: &str, parsed: &ParsedArguments) -> (res: Option<String>)
    ensures
        opt_view(res) == spec_primary_arg(name@, *parsed),
{
    match ToolKind::from_name(name) {
        None => None,
        Some(ToolKind::ReadFile) => read_file_primary_arg(&parsed.read_file),
        Some(ToolKind::WriteFile) => write_file_primary_arg(&parsed.write_file),
        Some(ToolKind::Bash) => bash_primary_arg(&parsed.bash),
    }
}

/// The text of the result for a call of a tool that does not exist.
pub open spec fn unknown_tool_text(name: Seq<char>) -> Seq<char> {
    "unknown tool : "@ + name
}

/// Which tool a call runs; a call of an unknown tool fails with a message
/// that names it.
pub fn plan_execution(name: &str) -> (res: Result<ToolKind, ToolResult>)
    ensures
        tool_of_name(name@) matches Some(k) ==> res == Ok::<ToolKind, ToolResult>(k),
        tool_of_name(name@) is None ==> (res matches Err(r) && !r.success && r.output@
            == unknown_tool_text(name@)),
{
    match ToolKind::from_name(name) {
        Some(k) => Ok(k),
        None => {
            let mut output = String::new();
            output.append("unknown tool : ");
            output.append(name);
            Err(ToolResult { output, success: false })
        },
    }
}

/// The text of the result for arguments that did not parse.
pub open spec fn invalid_arguments_text(error: Seq<char>) -> Seq<char> {
    "invalid arguments: "@ + error
}

/// The failed result for arguments that did not parse, given the parser's message.
pub fn invalid_arguments(error: &str) -> (res: ToolResult)
    ensures
        !res.success,
        res.output@ == invalid_arguments_text(error@),
{
    let mut output = String::new();
    output.append("invalid arguments: ");
    output.append(error);
    ToolResult { output, success: false }
}

} // verus!
