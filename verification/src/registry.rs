//! The registry of an agent's tools, and the dispatch of a requested call.

use vstd::prelude::*;
use crate::decode::{decode_arguments, decode_raw, lemma_decodes_iff_satisfies, satisfies_schema};
use crate::error::{ToolError, ToolErrorView};
use crate::schema::{ArgumentView, ToolArgs};
use crate::tool::{find_tool, is_named, lemma_find_tool_unique, lemma_register_keeps_unique,
    names_unique, register_spec, Tool, ToolCallRequest, ToolCallRequestView, ToolDefinition,
    ToolDefinitionView};

verus! {

/// A tool together with the definition it was registered under.
pub struct RegisteredTool<T> {
    definition: ToolDefinition,
    tool: T,
}

/// The tools of one agent, each under a name of its own.
///
/// Registering a tool under a name that is taken replaces the earlier tool:
/// the last registration wins.
pub struct ToolRegistry<T: Tool> {
    entries: Vec<RegisteredTool<T>>,
}

/// What resolving a request gives: the position of the tool and the decoded
/// arguments, or the failure. An unknown name is reported before the
/// arguments are looked at.
pub open spec fn resolve_spec(
    definitions: Seq<ToolDefinitionView>,
    request: ToolCallRequestView,
) -> Result<(int, Seq<ArgumentView>), ToolErrorView> {
    match find_tool(definitions, request.name) {
        None => Err(ToolErrorView::ToolNotFound(request.name)),
        Some(at) => match decode_raw(definitions[at].parameters, request.raw_args) {
            Ok(arguments) => Ok((at, arguments)),
            Err(why) => Err(ToolErrorView::ArgumentDecodeError(why)),
        },
    }
}

/// What a tool's own result becomes: its output unchanged, or a
/// `ToolCallError` that carries the cause.
pub open spec fn conclude_spec(outcome: Result<Seq<char>, Seq<char>>) -> Result<
    Seq<char>,
    ToolErrorView,
> {
    match outcome {
        Ok(output) => Ok(output),
        Err(cause) => Err(ToolErrorView::ToolCallError(cause)),
    }
}

/// A request for a registered tool whose arguments satisfy the schema it
/// declared resolves to that tool, and the tool's output is then the result
/// of the dispatch, unchanged.
pub proof fn law_satisfying_request_succeeds(
    definitions: Seq<ToolDefinitionView>,
    request: ToolCallRequestView,
    output: Seq<char>,
)
    requires
        find_tool(definitions, request.name) is Some,
        satisfies_schema(
            definitions[find_tool(definitions, request.name)->0].parameters,
            request.raw_args,
        ),
    ensures
        resolve_spec(definitions, request) is Ok,
        resolve_spec(definitions, request)->Ok_0.0 == find_tool(definitions, request.name)->0,
        conclude_spec(Ok(output)) == Ok::<Seq<char>, ToolErrorView>(output),
{
    let at = find_tool(definitions, request.name)->0;
    lemma_decodes_iff_satisfies(definitions[at].parameters, request.raw_args);
}

/// A request for a registered tool whose arguments do not satisfy the
/// schema it declared is refused with `ArgumentDecodeError`; no tool's
/// result enters into it.
pub proof fn law_malformed_request_is_refused(
    definitions: Seq<ToolDefinitionView>,
    request: ToolCallRequestView,
)
    requires
        find_tool(definitions, request.name) is Some,
        !satisfies_schema(
            definitions[find_tool(definitions, request.name)->0].parameters,
            request.raw_args,
        ),
    ensures
        resolve_spec(definitions, request) matches Err(ToolErrorView::ArgumentDecodeError(_)),
{
    let at = find_tool(definitions, request.name)->0;
    lemma_decodes_iff_satisfies(definitions[at].parameters, request.raw_args);
}

/// A request for a name under which no tool is registered is refused with
/// `ToolNotFound`, whatever its arguments.
pub proof fn law_unknown_tool_is_not_found(
    definitions: Seq<ToolDefinitionView>,
    request: ToolCallRequestView,
)
    requires
        forall|at: int| !is_named(definitions, request.name, at),
    ensures
        resolve_spec(definitions, request) == Err::<(int, Seq<ArgumentView>), ToolErrorView>(
            ToolErrorView::ToolNotFound(request.name),
        ),
{
}

/// The view of a dispatch result.
pub open spec fn result_view(result: Result<String, ToolError>) -> Result<Seq<char>, ToolErrorView> {
    match result {
        Ok(output) => Ok(output@),
        Err(error) => Err(error@),
    }
}

/// The view of a tool's own result.
pub open spec fn outcome_view(outcome: Result<String, String>) -> Result<Seq<char>, Seq<char>> {
    match outcome {
        Ok(output) => Ok(output@),
        Err(cause) => Err(cause@),
    }
}

/// Turns a tool's own result into the result of the dispatch: the output is
/// handed on unchanged, a failure is wrapped as `ToolCallError`.
pub fn conclude(outcome: Result<String, String>) -> (out: Result<String, ToolError>)
    ensures
        result_view(out) == conclude_spec(outcome_view(outcome)),
{
    match outcome {
        Ok(output) => Ok(output),
        Err(cause) => Err(ToolError::ToolCallError(cause)),
    }
}

spec fn definitions_of<T>(entries: Seq<RegisteredTool<T>>) -> Seq<ToolDefinitionView> {
    Seq::new(entries.len(), |i: int| entries[i].definition@)
}

spec fn tools_of<T>(entries: Seq<RegisteredTool<T>>) -> Seq<T> {
    Seq::new(entries.len(), |i: int| entries[i].tool)
}

impl<T: Tool> ToolRegistry<T> {
    #[verifier::type_invariant]
    spec fn names_are_unique(self) -> bool {
        names_unique(self.definitions())
    }

    /// The registered definitions, in the order of first registration.
    pub closed spec fn definitions(&self) -> Seq<ToolDefinitionView> {
        definitions_of(self.entries@)
    }

    /// The registered tools; `tools()[i]` is registered under `definitions()[i]`.
    pub closed spec fn tools(&self) -> Seq<T> {
        tools_of(self.entries@)
    }

    /// A registry without tools.
    pub fn new() -> (out: Self)
        ensures
            out.definitions() == Seq::<ToolDefinitionView>::empty(),
            out.tools() == Seq::<T>::empty(),
    {
        let out = ToolRegistry { entries: Vec::new() };
        assert(out.definitions() =~= Seq::<ToolDefinitionView>::empty());
        assert(out.tools() =~= Seq::<T>::empty());
        out
    }

    /// How many tools are registered.
    pub fn len(&self) -> (n: usize)
        ensures
            n == self.definitions().len(),
            n == self.tools().len(),
            names_unique(self.definitions()),
    {
        proof {
            use_type_invariant(self);
        }
        self.entries.len()
    }

    /// The position of the tool registered under `name`.
    pub fn position(&self, name: &str) -> (at: Option<usize>)
        ensures
            at is Some <==> find_tool(self.definitions(), name@) is Some,
            at matches Some(i) ==> find_tool(self.definitions(), name@) == Some(i as int),
    {
        proof {
            use_type_invariant(self);
        }
        let wanted = name.to_owned();
        let mut i: usize = 0;
        while i < self.entries.len()
            invariant
                i <= self.entries.len(),
                wanted@ == name@,
                names_unique(self.definitions()),
                forall|j: int| 0 <= j < i ==> !is_named(self.definitions(), name@, j),
            decreases self.entries.len() - i,
        {
            if self.entries[i].definition.name == wanted {
                proof {
                    assert(is_named(self.definitions(), name@, i as int));
                    lemma_find_tool_unique(self.definitions(), name@, i as int);
                }
                return Some(i);
            }
            i += 1;
        }
        None
    }

    /// Registers `tool` under `definition`. Where the name is taken, the
    /// tool takes the earlier one's place; otherwise it comes last.
    pub fn register_as(self, definition: ToolDefinition, tool: T) -> (out: Self)
        ensures
            out.definitions() == register_spec(self.definitions(), definition@),
            names_unique(out.definitions()),
            match find_tool(self.definitions(), definition@.name) {
                Some(at) => out.tools() == self.tools().update(at, tool),
                None => out.tools() == self.tools().push(tool),
            },
    {
        proof {
            use_type_invariant(&self);
            lemma_register_keeps_unique(self.definitions(), definition@);
        }
        let ghost before_definitions = self.definitions();
        let ghost before_tools = self.tools();
        let found = self.position(definition.name.as_str());
        let mut entries = self.entries;
        match found {
            Some(at) => {
                entries.set(at, RegisteredTool { definition, tool });
                assert(definitions_of(entries@) =~= before_definitions.update(
                    at as int,
                    definition@,
                ));
                assert(tools_of(entries@) =~= before_tools.update(at as int, tool));
                ToolRegistry { entries }
            },
            None => {
                entries.push(RegisteredTool { definition, tool });
                assert(definitions_of(entries@) =~= before_definitions.push(definition@));
                assert(tools_of(entries@) =~= before_tools.push(tool));
                ToolRegistry { entries }
            },
        }
    }

    /// Registers `tool` under the definition it gives of itself.
    pub fn register(self, tool: T) -> (out: Self)
        ensures
            exists|definition: ToolDefinition|
                {
                    &&& call_ensures(T::definition, (&tool,), definition)
                    &&& out.definitions() == register_spec(self.definitions(), definition@)
                    &&& match find_tool(self.definitions(), definition@.name) {
                        Some(at) => out.tools() == self.tools().update(at, tool),
                        None => out.tools() == self.tools().push(tool),
                    }
                },
            names_unique(out.definitions()),
    {
        let definition = tool.definition();
        self.register_as(definition, tool)
    }

    /// A copy of the registered definitions, as they are handed to the model.
    pub fn published(&self) -> (out: Vec<ToolDefinition>)
        ensures
            out.len() == self.definitions().len(),
            forall|i: int| 0 <= i < out.len() ==> (#[trigger] out[i])@ == self.definitions()[i],
    {
        let mut out: Vec<ToolDefinition> = Vec::new();
        let mut i: usize = 0;
        while i < self.entries.len()
            invariant
                i <= self.entries.len(),
                out.len() == i,
                forall|j: int| 0 <= j < i ==> (#[trigger] out[j])@ == self.definitions()[j],
            decreases self.entries.len() - i,
        {
            out.push(self.entries[i].definition.clone());
            i += 1;
        }
        out
    }

    /// Looks up the requested tool and decodes the arguments against the
    /// schema it declared. Calls no tool.
    pub fn resolve(&self, request: &ToolCallRequest) -> (out: Result<(usize, ToolArgs), ToolError>)
        ensures
            match resolve_spec(self.definitions(), request@) {
                Ok((at, arguments)) => out matches Ok((i, decoded)) && i == at && decoded@
                    == arguments,
                Err(error) => out matches Err(e) && e@ == error,
            },
    {
        match self.position(request.name.as_str()) {
            None => Err(ToolError::ToolNotFound(request.name.clone())),
            Some(at) => match decode_arguments(
                &self.entries[at].definition.parameters,
                request.raw_args.as_str(),
            ) {
                Ok(decoded) => Ok((at, decoded)),
                Err(why) => Err(ToolError::ArgumentDecodeError(why)),
            },
        }
    }

    /// Dispatches one requested call: resolves it, and only where that
    /// succeeds calls the tool, once, on the decoded arguments.
    ///
    /// Where the request does not resolve, the result is that failure
    /// (`ToolNotFound` or `ArgumentDecodeError`). Where it does, the result is
    /// what the tool's own result becomes: its output unchanged, or a
    /// `ToolCallError` with its cause.
    pub fn dispatch(&self, request: &ToolCallRequest) -> (out: Result<String, ToolError>)
        ensures
            match resolve_spec(self.definitions(), request@) {
                Err(error) => out matches Err(e) && e@ == error,
                Ok((at, arguments)) => exists|decoded: ToolArgs, outcome: Result<String, String>|
                    decoded@ == arguments && call_ensures(
                        T::call,
                        (&self.tools()[at], &decoded),
                        outcome,
                    ) && result_view(out) == conclude_spec(outcome_view(outcome)),
            },
    {
        match self.resolve(request) {
            Err(error) => Err(error),
            Ok((at, decoded)) => {
                let outcome = self.entries[at].tool.call(&decoded);
                let ghost seen = outcome;
                let out = conclude(outcome);
                assert(call_ensures(T::call, (&self.tools()[at as int], &decoded), seen));
                out
            },
        }
    }
}

} // verus!
