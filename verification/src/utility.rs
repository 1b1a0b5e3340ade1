//! Mending of tool calls before they go back to the model.

use vstd::prelude::*;
use vstd::string::StringExecFns;

verus! {

/// The function that a tool call names, and the arguments it gives, as text.
#[derive(Debug, PartialEq, Eq)]
pub struct ToolCallFunction {
    pub name: Option<String>,
    pub arguments: Option<String>,
}

/// A call of a tool that the model asks for.
#[derive(Debug, PartialEq, Eq)]
pub struct ToolCall {
    pub id: String,
    pub kind: String,
    pub function: ToolCallFunction,
}

/// Whether `fixed` is `given` with the empty object for arguments where
/// `given` has none, and nothing else changed.
pub open spec fn is_fixed(given: ToolCall, fixed: ToolCall) -> bool {
    &&& fixed.id == given.id
    &&& fixed.kind == given.kind
    &&& fixed.function.name == given.function.name
    &&& match given.function.arguments {
        Some(arguments) => fixed.function.arguments == Some(arguments),
        None => fixed.function.arguments is Some && fixed.function.arguments->0@ == "{}"@,
    }
}

/// Gives a tool call without arguments the empty object for arguments, which
/// some models insist on. Nothing else of the call changes.
pub fn fix_tool_call(tool_call: ToolCall) -> (fixed: ToolCall)
    ensures
        is_fixed(tool_call, fixed),
{
    let mut tool_call = tool_call;
    if tool_call.function.arguments.is_none() {
        tool_call.function.arguments = Some(String::from_str("{}"));
    }
    tool_call
}

/// A copy of an optional string.
pub fn copy_optional(text: &Option<String>) -> (copy: Option<String>)
    ensures
        copy == *text,
{
    match text {
        Some(text) => Some(text.clone()),
        None => None,
    }
}

/// A copy of a tool call.
pub fn copy_tool_call(tool_call: &ToolCall) -> (copy: ToolCall)
    ensures
        copy == *tool_call,
{
    ToolCall {
        id: tool_call.id.clone(),
        kind: tool_call.kind.clone(),
        function: ToolCallFunction {
            name: copy_optional(&tool_call.function.name),
            arguments: copy_optional(&tool_call.function.arguments),
        },
    }
}

} // verus!
