//! The tool registry offered to the assistant.

use crate::json::{empty_object, json_print, members, DocView, JsonDoc, JsonValue, JsonView};
use crate::text::{concat, owned};
use vstd::prelude::*;

verus! {

/// Which tools a tool belongs with.
#[derive(Debug, Clone, Copy, PartialEq, Eq, Structural)]
pub enum ToolTier {
    /// In-app CORE changes (tasks, widgets, captures).
    Core,
    /// Desktop automation of the operating system, always confirmed first.
    Os,
}

/// A tool the assistant may call.
#[derive(Debug, Clone)]
pub struct ToolDescriptor {
    pub name: String,
    pub description: String,
    pub tier: ToolTier,
    pub input_schema: JsonDoc,
}

/// Why a tool call was refused.
#[derive(Debug, Clone)]
pub enum McpError {
    ToolNotFound(String),
    PreviewRequired,
}

impl McpError {
    /// The error's message, as `Display` would print it.
    pub fn message(&self) -> (r: String)
        ensures
            r@ == match self {
                McpError::ToolNotFound(n) => "tool not found: "@ + n@,
                McpError::PreviewRequired => "preview required before execution"@,
            },
    {
        match self {
            McpError::ToolNotFound(n) => concat("tool not found: ", n.as_str()),
            McpError::PreviewRequired => owned("preview required before execution"),
        }
    }
}

/// The tools registered so far: `list_tasks`, a core tool that takes an
/// object with no properties.
pub fn core_tool_stubs() -> (r: Vec<ToolDescriptor>)
    ensures
        r@.len() == 1,
        r@[0].name@ == "list_tasks"@,
        r@[0].description@ == "List active tasks from local CORE projections"@,
        r@[0].tier == ToolTier::Core,
        r@[0].input_schema matches JsonDoc::Object(f) && f@.len() == 2
            && f@[0].0@ == "type"@ && f@[0].1@ == JsonView::Str("object"@)
            && f@[1].0@ == "properties"@ && f@[1].1 is Other
            && json_print(DocView::Value(f@[1].1@)) == "{}"@,
{
    let schema = vec![
        (owned("type"), JsonValue::Str(owned("object"))),
        (owned("properties"), empty_object()),
    ];
    vec![ToolDescriptor {
        name: owned("list_tasks"),
        description: owned("List active tasks from local CORE projections"),
        tier: ToolTier::Core,
        input_schema: JsonDoc::Object(schema),
    }]
}

} // verus!
