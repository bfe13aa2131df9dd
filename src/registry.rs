//! The fixed, ordered set of tools an agent may call.

use vstd::prelude::*;

verus! {

/// What the provider is told about one tool.
#[derive(Debug)]
pub struct ToolDefinition {
    pub name: String,
    pub description: String,
    /// The parameter schema, as JSON text.
    pub parameters: String,
}

/// Mathematical model of a `ToolDefinition`.
pub struct DefinitionModel {
    pub name: Seq<char>,
    pub description: Seq<char>,
    pub parameters: Seq<char>,
}

impl View for ToolDefinition {
    type V = DefinitionModel;

    open spec fn view(&self) -> DefinitionModel {
        DefinitionModel {
            name: self.name@,
            description: self.description@,
            parameters: self.parameters@,
        }
    }
}

impl ToolDefinition {
    pub fn new(name: &str, description: &str, parameters: &str) -> (r: ToolDefinition)
        ensures
            r.name@ == name@,
            r.description@ == description@,
            r.parameters@ == parameters@,
    {
        ToolDefinition {
            name: String::from_str(name),
            description: String::from_str(description),
            parameters: String::from_str(parameters),
        }
    }
}

/// The models of a list of definitions, in order.
pub open spec fn definitions_model(defs: Seq<ToolDefinition>) -> Seq<DefinitionModel> {
    defs.map_values(|d: ToolDefinition| d@)
}

/// The first position at or after `from` whose tool is called `name`.
pub open spec fn find_tool(tools: Seq<DefinitionModel>, name: Seq<char>, from: int) -> Option<int>
    decreases tools.len() - from,
{
    if from < 0 || from >= tools.len() {
        None
    } else if tools[from].name == name {
        Some(from)
    } else {
        find_tool(tools, name, from + 1)
    }
}

/// The tool that a call of `name` runs: the first one of that exact name.
pub open spec fn resolve_tool(tools: Seq<DefinitionModel>, name: Seq<char>) -> Option<int> {
    find_tool(tools, name, 0)
}

/// `find_tool` gives the first match, and `None` only where nothing matches.
pub proof fn lemma_find_tool(tools: Seq<DefinitionModel>, name: Seq<char>, from: int)
    requires
        0 <= from,
    ensures
        match find_tool(tools, name, from) {
            Some(i) => from <= i < tools.len() && tools[i].name == name && forall|j: int|
                from <= j < i ==> tools[j].name != name,
            None => forall|j: int| from <= j < tools.len() ==> tools[j].name != name,
        },
    decreases tools.len() - from,
{
    if from < tools.len() && tools[from].name != name {
        lemma_find_tool(tools, name, from + 1);
    }
}

/// An ordered collection of tool definitions, fixed once built.
pub struct ToolRegistry {
    tools: Vec<ToolDefinition>,
}

impl View for ToolRegistry {
    type V = Seq<DefinitionModel>;

    closed spec fn view(&self) -> Seq<DefinitionModel> {
        definitions_model(self.tools@)
    }
}

impl ToolRegistry {
    pub fn new(tools: Vec<ToolDefinition>) -> (r: ToolRegistry)
        ensures
            r@ == definitions_model(tools@),
    {
        ToolRegistry { tools }
    }

    /// The definitions sent to the provider, in registration order.
    pub fn definitions(&self) -> (r: &Vec<ToolDefinition>)
        ensures
            definitions_model(r@) == self@,
    {
        &self.tools
    }

    pub fn len(&self) -> (r: usize)
        ensures
            r == self@.len(),
    {
        self.tools.len()
    }

    /// The position of the tool called exactly `name`, if there is one.
    pub fn resolve(&self, name: &String) -> (r: Option<usize>)
        ensures
            match r {
                Some(i) => resolve_tool(self@, name@) == Some(i as int),
                None => resolve_tool(self@, name@) is None,
            },
    {
        let mut i: usize = 0;
        while i < self.tools.len()
            invariant
                i <= self.tools.len(),
                find_tool(self@, name@, 0) == find_tool(self@, name@, i as int),
            decreases self.tools.len() - i,
        {
            if self.tools[i].name == *name {
                return Some(i);
            }
            i = i + 1;
        }
        None
    }
}

} // verus!
