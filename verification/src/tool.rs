//! Tools: what they declare, and the registry that holds them by name.

use vstd::prelude::*;
use crate::schema::{ParameterSchema, PropertyView, ToolArgs};

verus! {

/// What a tool publishes to the model: its name, what it does, and the shape
/// of its arguments.
#[derive(Debug, PartialEq, Eq)]
pub struct ToolDefinition {
    pub name: String,
    pub description: String,
    pub parameters: ParameterSchema,
}

/// The mathematical value of a [`ToolDefinition`].
pub struct ToolDefinitionView {
    pub name: Seq<char>,
    pub description: Seq<char>,
    pub parameters: Seq<PropertyView>,
}

impl View for ToolDefinition {
    type V = ToolDefinitionView;

    open spec fn view(&self) -> ToolDefinitionView {
        ToolDefinitionView {
            name: self.name@,
            description: self.description@,
            parameters: self.parameters@,
        }
    }
}

impl Clone for ToolDefinition {
    fn clone(&self) -> (out: ToolDefinition)
        ensures
            out@ == self@,
    {
        ToolDefinition {
            name: self.name.clone(),
            description: self.description.clone(),
            parameters: self.parameters.clone(),
        }
    }
}

/// A named unit of computation that an agent may invoke.
pub trait Tool {
    /// What the tool publishes to the model. It has no side effect.
    fn definition(&self) -> ToolDefinition;

    /// Runs the tool on decoded arguments. The output, or the cause of the
    /// failure as text.
    fn call(&self, args: &ToolArgs) -> Result<String, String>;
}

/// A tool call as the model requests it.
#[derive(Debug, PartialEq, Eq)]
pub struct ToolCallRequest {
    pub name: String,
    /// The arguments, as the JSON text the model wrote.
    pub raw_args: String,
}

/// The mathematical value of a [`ToolCallRequest`].
pub struct ToolCallRequestView {
    pub name: Seq<char>,
    pub raw_args: Seq<char>,
}

impl View for ToolCallRequest {
    type V = ToolCallRequestView;

    open spec fn view(&self) -> ToolCallRequestView {
        ToolCallRequestView { name: self.name@, raw_args: self.raw_args@ }
    }
}

impl Clone for ToolCallRequest {
    fn clone(&self) -> (out: ToolCallRequest)
        ensures
            out@ == self@,
    {
        ToolCallRequest { name: self.name.clone(), raw_args: self.raw_args.clone() }
    }
}

/// The views of a sequence of tool-call requests.
pub open spec fn requests_view(requests: Seq<ToolCallRequest>) -> Seq<ToolCallRequestView> {
    Seq::new(requests.len(), |i: int| requests[i]@)
}

/// No two definitions have the same name.
pub open spec fn names_unique(definitions: Seq<ToolDefinitionView>) -> bool {
    forall|i: int, j: int|
        0 <= i < j < definitions.len() ==> (#[trigger] definitions[i]).name != (
        #[trigger] definitions[j]).name
}

/// `at` is a position of `definitions` that holds the name `name`.
pub open spec fn is_named(definitions: Seq<ToolDefinitionView>, name: Seq<char>, at: int) -> bool {
    0 <= at < definitions.len() && definitions[at].name == name
}

/// The position of the definition named `name`, if there is one.
pub open spec fn find_tool(definitions: Seq<ToolDefinitionView>, name: Seq<char>) -> Option<int> {
    if exists|at: int| is_named(definitions, name, at) {
        Some(choose|at: int| is_named(definitions, name, at))
    } else {
        None
    }
}

/// The definitions after `definition` is registered: it takes the place of
/// the one that had its name, or comes last where none had.
pub open spec fn register_spec(
    definitions: Seq<ToolDefinitionView>,
    definition: ToolDefinitionView,
) -> Seq<ToolDefinitionView> {
    match find_tool(definitions, definition.name) {
        Some(at) => definitions.update(at, definition),
        None => definitions.push(definition),
    }
}

/// Among unique names, the position of a name is the one position that holds it.
pub proof fn lemma_find_tool_unique(definitions: Seq<ToolDefinitionView>, name: Seq<char>, at: int)
    requires
        names_unique(definitions),
        is_named(definitions, name, at),
    ensures
        find_tool(definitions, name) == Some(at),
{
    let other = choose|p: int| is_named(definitions, name, p);
    assert(is_named(definitions, name, other));
    if other < at {
        assert(definitions[other].name != definitions[at].name);
    } else if at < other {
        assert(definitions[at].name != definitions[other].name);
    }
}

/// Registering keeps the names unique, and the registered name then leads to
/// the registered definition.
pub proof fn lemma_register_keeps_unique(
    definitions: Seq<ToolDefinitionView>,
    definition: ToolDefinitionView,
)
    requires
        names_unique(definitions),
    ensures
        names_unique(register_spec(definitions, definition)),
        find_tool(register_spec(definitions, definition), definition.name) matches Some(at)
            && register_spec(definitions, definition)[at] == definition,
{
    let after = register_spec(definitions, definition);
    match find_tool(definitions, definition.name) {
        Some(at) => {
            assert(is_named(definitions, definition.name, at));
            assert forall|i: int, j: int| 0 <= i < j < after.len() implies (#[trigger] after[i]).name
                != (#[trigger] after[j]).name by {
                assert(definitions[i].name != definitions[j].name);
            }
            assert(is_named(after, definition.name, at));
            lemma_find_tool_unique(after, definition.name, at);
        },
        None => {
            assert forall|i: int, j: int| 0 <= i < j < after.len() implies (#[trigger] after[i]).name
                != (#[trigger] after[j]).name by {
                if j == definitions.len() {
                    assert(!is_named(definitions, definition.name, i));
                } else {
                    assert(definitions[i].name != definitions[j].name);
                }
            }
            let last = definitions.len() as int;
            assert(is_named(after, definition.name, last));
            lemma_find_tool_unique(after, definition.name, last);
        },
    }
}

/// Registering a definition leaves every other name where it was.
pub proof fn lemma_register_keeps_others(
    definitions: Seq<ToolDefinitionView>,
    definition: ToolDefinitionView,
    name: Seq<char>,
)
    requires
        names_unique(definitions),
        name != definition.name,
    ensures
        find_tool(register_spec(definitions, definition), name) == find_tool(definitions, name),
        find_tool(definitions, name) matches Some(at) ==> register_spec(definitions, definition)[at]
            == definitions[at],
{
    let after = register_spec(definitions, definition);
    lemma_register_keeps_unique(definitions, definition);
    if exists|at: int| is_named(definitions, name, at) {
        let at = choose|at: int| is_named(definitions, name, at);
        match find_tool(definitions, definition.name) {
            Some(p) => {
                assert(is_named(definitions, definition.name, p));
            },
            None => {},
        }
        assert(is_named(after, name, at));
        lemma_find_tool_unique(after, name, at);
    } else {
        if exists|at: int| is_named(after, name, at) {
            let at = choose|at: int| is_named(after, name, at);
            match find_tool(definitions, definition.name) {
                Some(p) => {
                    assert(is_named(definitions, definition.name, p));
                    assert(is_named(definitions, name, at));
                },
                None => {
                    assert(is_named(definitions, name, at));
                },
            }
        }
    }
}

} // verus!
