//! Tool metadata: the hints a client reads to decide whether a tool may run
//! without asking, and the description of a registered tool.
use vstd::prelude::*;
use crate::json::{JsonValue, JsonView};

verus! {

/// Execution hints of a tool; an unset hint is left out of the listing.
#[derive(Debug, Clone, Copy, PartialEq, Eq, Structural)]
pub struct ToolAnnotations {
    /// The tool only reads.
    pub read_only_hint: Option<bool>,
    /// The tool changes or destroys something.
    pub destructive_hint: Option<bool>,
    /// Running the tool twice has the effect of running it once.
    pub idempotent_hint: Option<bool>,
    /// The tool reaches outside networks.
    pub open_world_hint: Option<bool>,
}

impl Default for ToolAnnotations {
    fn default() -> (r: Self)
        ensures
            r.read_only_hint is None,
            r.destructive_hint is None,
            r.idempotent_hint is None,
            r.open_world_hint is None,
    {
        ToolAnnotations {
            read_only_hint: None,
            destructive_hint: None,
            idempotent_hint: None,
            open_world_hint: None,
        }
    }
}

impl ToolAnnotations {
    /// A read-only, idempotent tool.
    pub fn read_only() -> (r: Self)
        ensures
            r == (ToolAnnotations {
                read_only_hint: Some(true),
                destructive_hint: None,
                idempotent_hint: Some(true),
                open_world_hint: None,
            }),
    {
        ToolAnnotations {
            read_only_hint: Some(true),
            destructive_hint: None,
            idempotent_hint: Some(true),
            open_world_hint: None,
        }
    }

    /// A tool that changes state, is not destructive and not idempotent.
    pub fn state_changing() -> (r: Self)
        ensures
            r == (ToolAnnotations {
                read_only_hint: Some(false),
                destructive_hint: Some(false),
                idempotent_hint: Some(false),
                open_world_hint: None,
            }),
    {
        ToolAnnotations {
            read_only_hint: Some(false),
            destructive_hint: Some(false),
            idempotent_hint: Some(false),
            open_world_hint: None,
        }
    }
}

/// What the registry knows of a tool: its name, description, parameter
/// schema and hints.
#[derive(Debug)]
pub struct ToolDescriptor {
    pub name: String,
    pub description: String,
    pub input_schema: JsonValue,
    pub annotations: ToolAnnotations,
}

pub ghost struct DescriptorView {
    pub name: Seq<char>,
    pub description: Seq<char>,
    pub input_schema: JsonView,
    pub annotations: ToolAnnotations,
}

impl View for ToolDescriptor {
    type V = DescriptorView;

    open spec fn view(&self) -> DescriptorView {
        DescriptorView {
            name: self.name@,
            description: self.description@,
            input_schema: self.input_schema@,
            annotations: self.annotations,
        }
    }
}

} // verus!
