//! The list of tools that the server offers, with the schema of the
//! arguments of each.

use vstd::prelude::*;
use crate::json::{find_member, view_items, view_members, Json, JsonView};
use crate::protocol::ToolDefinition;
use crate::tools::{arity_of, tool_named, Arity, Tool};

verus! {

/// The name by which a tool is called.
pub open spec fn name_text(tool: Tool) -> Seq<char> {
    match tool {
        Tool::Hover => "rust_analyzer_hover"@,
        Tool::Definition => "rust_analyzer_definition"@,
        Tool::References => "rust_analyzer_references"@,
        Tool::Implementation => "rust_analyzer_implementation"@,
        Tool::ParentModule => "rust_analyzer_parent_module"@,
        Tool::IncomingCalls => "rust_analyzer_incoming_calls"@,
        Tool::OutgoingCalls => "rust_analyzer_outgoing_calls"@,
        Tool::InlayHint => "rust_analyzer_inlay_hint"@,
        Tool::Completion => "rust_analyzer_completion"@,
        Tool::Symbols => "rust_analyzer_symbols"@,
        Tool::WorkspaceSymbol => "rust_analyzer_workspace_symbol"@,
        Tool::Format => "rust_analyzer_format"@,
        Tool::CodeActions => "rust_analyzer_code_actions"@,
        Tool::GetWorkspace => "rust_analyzer_get_workspace"@,
        Tool::SetWorkspace => "rust_analyzer_set_workspace"@,
        Tool::Diagnostics => "rust_analyzer_diagnostics"@,
        Tool::WorkspaceDiagnostics => "rust_analyzer_workspace_diagnostics"@,
    }
}

/// What a tool does, as the list says it.
pub open spec fn description_text(tool: Tool) -> Seq<char> {
    match tool {
        Tool::SetWorkspace => "Set the workspace root directory for rust-analyzer"@,
        Tool::Hover => "Get hover information for a symbol at a specific position in a Rust file"@,
        Tool::Definition => "Go to definition of a symbol at a specific position"@,
        Tool::References => "Find all references to a symbol at a specific position"@,
        Tool::WorkspaceSymbol => "Search for symbols across the entire workspace using a query (supports fuzzy matching)"@,
        Tool::Diagnostics => "Get compiler diagnostics (errors, warnings, hints) for a Rust file"@,
        Tool::InlayHint => "Get inlay hints (type annotations) for a code range"@,
        Tool::Implementation => "Find all implementations of a trait at a specific position"@,
        Tool::IncomingCalls => "Find all functions that call this function"@,
        Tool::OutgoingCalls => "Find all functions that this function calls"@,
        Tool::ParentModule => "Navigate to parent module declaration"@,
        Tool::WorkspaceDiagnostics => "Get all compiler diagnostics across the entire workspace"@,
        Tool::Completion => "Get completion suggestions at a specific position"@,
        Tool::Symbols => "Get the symbols of a Rust file"@,
        Tool::Format => "Format a Rust file"@,
        Tool::CodeActions => "Get the code actions for a code range"@,
        Tool::GetWorkspace => "Get the workspace root directory of rust-analyzer"@,
    }
}

/// An argument of a tool as its schema describes it.
pub struct Argument {
    pub name: Seq<char>,
    pub kind: Seq<char>,
    pub description: Seq<char>,
}

/// A text argument.
pub open spec fn text_argument(name: Seq<char>, description: Seq<char>) -> Argument {
    Argument { name, kind: "string"@, description }
}

/// A number argument.
pub open spec fn number_argument(name: Seq<char>, description: Seq<char>) -> Argument {
    Argument { name, kind: "number"@, description }
}

/// The file argument.
pub open spec fn file_argument() -> Argument {
    text_argument("file_path"@, "Path to the Rust file"@)
}

/// The arguments that the schema of a tool of the arity `arity` describes,
/// in the order in which they are read.
pub open spec fn arguments_for(arity: Arity) -> Seq<Argument> {
    match arity {
        Arity::Nothing => Seq::empty(),
        Arity::File => seq![file_argument()],
        Arity::FilePosition => seq![
            file_argument(),
            number_argument("line"@, "Line number (0-based)"@),
            number_argument("character"@, "Character position (0-based)"@),
        ],
        Arity::FileRange => seq![
            file_argument(),
            number_argument("line"@, "Start line number (0-based)"@),
            number_argument("character"@, "Start character position (0-based)"@),
            number_argument("end_line"@, "End line number (0-based)"@),
            number_argument("end_character"@, "End character position (0-based)"@),
        ],
        Arity::Query => seq![
            text_argument(
                "query"@,
                "Search query for symbol names (e.g., 'TradeData', 'calculate')"@,
            ),
        ],
        Arity::WorkspacePath => seq![
            text_argument("workspace_path"@, "Path to the workspace root"@),
        ],
    }
}

/// The member of the properties of a schema that describes `argument`.
pub open spec fn property_member(argument: Argument) -> (Seq<char>, JsonView) {
    (
        argument.name,
        JsonView::Object(
            seq![
                ("type"@, JsonView::String(argument.kind)),
                ("description"@, JsonView::String(argument.description)),
            ],
        ),
    )
}

/// The schema of an object with the arguments `arguments`, all of them
/// required. A schema without arguments has no list of required ones.
pub open spec fn schema_for(arguments: Seq<Argument>) -> JsonView {
    let properties = JsonView::Object(
        Seq::new(arguments.len(), |i: int| property_member(arguments[i])),
    );
    if arguments.len() == 0 {
        JsonView::Object(
            seq![("type"@, JsonView::String("object"@)), ("properties"@, properties)],
        )
    } else {
        JsonView::Object(
            seq![
                ("type"@, JsonView::String("object"@)),
                ("properties"@, properties),
                (
                    "required"@,
                    JsonView::Array(
                        Seq::new(arguments.len(), |i: int| JsonView::String(arguments[i].name)),
                    ),
                ),
            ],
        )
    }
}

/// The schema of the arguments of `tool`.
pub open spec fn schema_of(tool: Tool) -> JsonView {
    schema_for(arguments_for(arity_of(tool)))
}

/// The mathematical value of a [`ToolDefinition`].
pub struct ToolDefinitionView {
    pub name: Seq<char>,
    pub description: Seq<char>,
    pub input_schema: JsonView,
}

impl View for ToolDefinition {
    type V = ToolDefinitionView;

    open spec fn view(&self) -> ToolDefinitionView {
        ToolDefinitionView {
            name: self.name@,
            description: self.description@,
            input_schema: self.input_schema@,
        }
    }
}

/// The entry of `tool` in the list.
pub open spec fn listing(tool: Tool) -> ToolDefinitionView {
    ToolDefinitionView {
        name: name_text(tool),
        description: description_text(tool),
        input_schema: schema_of(tool),
    }
}

/// The tools that are listed, in the order of the list: the one that sets
/// the workspace first.
pub open spec fn listed_tools() -> Seq<Tool> {
    seq![
        Tool::SetWorkspace,
        Tool::Hover,
        Tool::Definition,
        Tool::References,
        Tool::WorkspaceSymbol,
        Tool::Diagnostics,
        Tool::InlayHint,
        Tool::Implementation,
        Tool::IncomingCalls,
        Tool::OutgoingCalls,
        Tool::ParentModule,
        Tool::WorkspaceDiagnostics,
    ]
}

/// The names of the arguments that a tool of the arity `arity` takes, in
/// the order in which they are read.
pub open spec fn argument_names(arity: Arity) -> Seq<Seq<char>> {
    match arity {
        Arity::Nothing => Seq::empty(),
        Arity::File => seq!["file_path"@],
        Arity::FilePosition => seq!["file_path"@, "line"@, "character"@],
        Arity::FileRange => seq![
            "file_path"@,
            "line"@,
            "character"@,
            "end_line"@,
            "end_character"@,
        ],
        Arity::Query => seq!["query"@],
        Arity::WorkspacePath => seq!["workspace_path"@],
    }
}

/// The names that a list of JSON strings holds.
pub open spec fn names_in(items: Seq<JsonView>) -> Seq<Seq<char>> {
    Seq::new(items.len(), |i: int| items[i].as_str().unwrap())
}

/// The names of the arguments that a schema requires; none where it has
/// no list of them.
pub open spec fn required_names(schema: JsonView) -> Seq<Seq<char>> {
    match schema.field("required"@).as_array() {
        Some(items) => names_in(items),
        None => Seq::empty(),
    }
}

/// The names of the arguments that a schema describes.
pub open spec fn property_names(schema: JsonView) -> Seq<Seq<char>> {
    match schema.field("properties"@) {
        JsonView::Object(members) => Seq::new(members.len(), |i: int| members[i].0),
        _ => Seq::empty(),
    }
}

/// The schema of a tool describes and requires exactly the arguments that
/// are read for the tool, in the order in which they are read.
pub proof fn lemma_schema_fits_arguments(tool: Tool)
    ensures
        property_names(schema_of(tool)) == argument_names(arity_of(tool)),
        required_names(schema_of(tool)) == argument_names(arity_of(tool)),
{
    reveal_with_fuel(find_member, 4);
    reveal_strlit("type");
    reveal_strlit("properties");
    reveal_strlit("required");
    assert("type"@.len() == 4);
    assert("properties"@.len() == 10);
    assert("required"@.len() == 8);
    let arguments = arguments_for(arity_of(tool));
    let names = argument_names(arity_of(tool));
    let schema = schema_of(tool);
    let members = Seq::new(arguments.len(), |i: int| property_member(arguments[i]));
    let listed = Seq::new(arguments.len(), |i: int| JsonView::String(arguments[i].name));
    assert(schema.field("properties"@) == JsonView::Object(members));
    assert(Seq::new(members.len(), |i: int| members[i].0) =~= names);
    if arguments.len() == 0 {
        assert(schema.field("required"@) == JsonView::Null);
        assert(names =~= Seq::<Seq<char>>::empty());
    } else {
        assert(schema.field("required"@) == JsonView::Array(listed));
        assert(names_in(listed) =~= names);
    }
}

/// Every tool is found by its name: the names of the tools are distinct.
pub proof fn lemma_tool_is_found_by_name(tool: Tool)
    ensures
        tool_named(name_text(tool)) == Some(tool),
{
    reveal_strlit("rust_analyzer_hover");
    reveal_strlit("rust_analyzer_definition");
    reveal_strlit("rust_analyzer_references");
    reveal_strlit("rust_analyzer_implementation");
    reveal_strlit("rust_analyzer_parent_module");
    reveal_strlit("rust_analyzer_incoming_calls");
    reveal_strlit("rust_analyzer_outgoing_calls");
    reveal_strlit("rust_analyzer_inlay_hint");
    reveal_strlit("rust_analyzer_completion");
    reveal_strlit("rust_analyzer_symbols");
    reveal_strlit("rust_analyzer_workspace_symbol");
    reveal_strlit("rust_analyzer_format");
    reveal_strlit("rust_analyzer_code_actions");
    reveal_strlit("rust_analyzer_get_workspace");
    reveal_strlit("rust_analyzer_set_workspace");
    reveal_strlit("rust_analyzer_diagnostics");
    reveal_strlit("rust_analyzer_workspace_diagnostics");
    assert("rust_analyzer_hover"@.len() == 19);
    assert("rust_analyzer_format"@.len() == 20);
    assert("rust_analyzer_symbols"@.len() == 21);
    assert("rust_analyzer_definition"@.len() == 24);
    assert("rust_analyzer_references"@.len() == 24);
    assert("rust_analyzer_inlay_hint"@.len() == 24);
    assert("rust_analyzer_completion"@.len() == 24);
    assert("rust_analyzer_diagnostics"@.len() == 25);
    assert("rust_analyzer_code_actions"@.len() == 26);
    assert("rust_analyzer_parent_module"@.len() == 27);
    assert("rust_analyzer_get_workspace"@.len() == 27);
    assert("rust_analyzer_set_workspace"@.len() == 27);
    assert("rust_analyzer_implementation"@.len() == 28);
    assert("rust_analyzer_incoming_calls"@.len() == 28);
    assert("rust_analyzer_outgoing_calls"@.len() == 28);
    assert("rust_analyzer_workspace_symbol"@.len() == 30);
    assert("rust_analyzer_workspace_diagnostics"@.len() == 35);
    assert("rust_analyzer_definition"@[14] == 'd');
    assert("rust_analyzer_references"@[14] == 'r');
    assert("rust_analyzer_inlay_hint"@[14] == 'i');
    assert("rust_analyzer_completion"@[14] == 'c');
    assert("rust_analyzer_parent_module"@[14] == 'p');
    assert("rust_analyzer_get_workspace"@[14] == 'g');
    assert("rust_analyzer_set_workspace"@[14] == 's');
    assert("rust_analyzer_implementation"@[15] == 'm');
    assert("rust_analyzer_incoming_calls"@[15] == 'n');
    assert("rust_analyzer_implementation"@[14] == 'i');
    assert("rust_analyzer_outgoing_calls"@[14] == 'o');
    assert("rust_analyzer_incoming_calls"@[14] == 'i');
}

impl Tool {
    /// The name by which the tool is called.
    pub fn name(&self) -> (name: &'static str)
        ensures
            name@ == name_text(*self),
    {
        match self {
            Tool::Hover => "rust_analyzer_hover",
            Tool::Definition => "rust_analyzer_definition",
            Tool::References => "rust_analyzer_references",
            Tool::Implementation => "rust_analyzer_implementation",
            Tool::ParentModule => "rust_analyzer_parent_module",
            Tool::IncomingCalls => "rust_analyzer_incoming_calls",
            Tool::OutgoingCalls => "rust_analyzer_outgoing_calls",
            Tool::InlayHint => "rust_analyzer_inlay_hint",
            Tool::Completion => "rust_analyzer_completion",
            Tool::Symbols => "rust_analyzer_symbols",
            Tool::WorkspaceSymbol => "rust_analyzer_workspace_symbol",
            Tool::Format => "rust_analyzer_format",
            Tool::CodeActions => "rust_analyzer_code_actions",
            Tool::GetWorkspace => "rust_analyzer_get_workspace",
            Tool::SetWorkspace => "rust_analyzer_set_workspace",
            Tool::Diagnostics => "rust_analyzer_diagnostics",
            Tool::WorkspaceDiagnostics => "rust_analyzer_workspace_diagnostics",
        }
    }

    /// What the tool does, as the list says it.
    pub fn description(&self) -> (text: &'static str)
        ensures
            text@ == description_text(*self),
    {
        match self {
            Tool::SetWorkspace => "Set the workspace root directory for rust-analyzer",
            Tool::Hover => "Get hover information for a symbol at a specific position in a Rust file",
            Tool::Definition => "Go to definition of a symbol at a specific position",
            Tool::References => "Find all references to a symbol at a specific position",
            Tool::WorkspaceSymbol => "Search for symbols across the entire workspace using a query (supports fuzzy matching)",
            Tool::Diagnostics => "Get compiler diagnostics (errors, warnings, hints) for a Rust file",
            Tool::InlayHint => "Get inlay hints (type annotations) for a code range",
            Tool::Implementation => "Find all implementations of a trait at a specific position",
            Tool::IncomingCalls => "Find all functions that call this function",
            Tool::OutgoingCalls => "Find all functions that this function calls",
            Tool::ParentModule => "Navigate to parent module declaration",
            Tool::WorkspaceDiagnostics => "Get all compiler diagnostics across the entire workspace",
            Tool::Completion => "Get completion suggestions at a specific position",
            Tool::Symbols => "Get the symbols of a Rust file",
            Tool::Format => "Format a Rust file",
            Tool::CodeActions => "Get the code actions for a code range",
            Tool::GetWorkspace => "Get the workspace root directory of rust-analyzer",
        }
    }
}

/// The members and the required names of a schema under construction.
struct Draft {
    properties: Vec<(String, Json)>,
    required: Vec<Json>,
}

impl Draft {
    spec fn holds(self, arguments: Seq<Argument>) -> bool {
        &&& view_members(self.properties@) == Seq::new(
            arguments.len(),
            |i: int| property_member(arguments[i]),
        )
        &&& view_items(self.required@) == Seq::new(
            arguments.len(),
            |i: int| JsonView::String(arguments[i].name),
        )
    }

    fn new() -> (draft: Self)
        ensures
            draft.holds(Seq::empty()),
    {
        let draft = Draft { properties: Vec::new(), required: Vec::new() };
        assert(view_members(draft.properties@) =~= Seq::new(
            0,
            |i: int| property_member(Seq::<Argument>::empty()[i]),
        ));
        assert(view_items(draft.required@) =~= Seq::new(
            0,
            |i: int| JsonView::String(Seq::<Argument>::empty()[i].name),
        ));
        draft
    }

    fn add(&mut self, name: &str, kind: &str, description: &str, Ghost(so_far): Ghost<Seq<Argument>>)
        requires
            old(self).holds(so_far),
        ensures
            final(self).holds(
                so_far.push(Argument { name: name@, kind: kind@, description: description@ }),
            ),
    {
        let ghost argument = Argument { name: name@, kind: kind@, description: description@ };
        let member = (
            name.to_owned(),
            Json::object2("type", Json::string(kind), "description", Json::string(description)),
        );
        let listed = Json::string(name);
        proof {
            crate::json::lemma_view_members_push(self.properties@, member);
            crate::json::lemma_view_items_push(self.required@, listed);
        }
        self.properties.push(member);
        self.required.push(listed);
        proof {
            let all = so_far.push(argument);
            assert(view_members(self.properties@) =~= Seq::new(
                all.len(),
                |i: int| property_member(all[i]),
            ));
            assert(view_items(self.required@) =~= Seq::new(
                all.len(),
                |i: int| JsonView::String(all[i].name),
            ));
        }
    }

    fn finish(self, Ghost(arguments): Ghost<Seq<Argument>>) -> (schema: Json)
        requires
            self.holds(arguments),
        ensures
            schema@ == schema_for(arguments),
    {
        let bare = self.properties.len() == 0;
        proof {
            assert(view_members(self.properties@).len() == self.properties@.len());
            assert(arguments.len() == self.properties@.len());
        }
        let properties = Json::Object(self.properties);
        if bare {
            Json::object2("type", Json::string("object"), "properties", properties)
        } else {
            Json::object3(
                "type",
                Json::string("object"),
                "properties",
                properties,
                "required",
                Json::array(self.required),
            )
        }
    }
}

/// Builds the schema of the arguments of `tool`.
pub fn input_schema(tool: Tool) -> (schema: Json)
    ensures
        schema@ == schema_of(tool),
{
    let mut draft = Draft::new();
    let ghost none = Seq::<Argument>::empty();
    let ghost file = seq![file_argument()];
    proof {
        assert(none.push(file_argument()) =~= file);
    }
    match tool.arity() {
        Arity::Nothing => {
            assert(arguments_for(arity_of(tool)) =~= none);
            draft.finish(Ghost(none))
        },
        Arity::File => {
            draft.add("file_path", "string", "Path to the Rust file", Ghost(none));
            assert(arguments_for(arity_of(tool)) =~= file);
            draft.finish(Ghost(file))
        },
        Arity::FilePosition => {
            let ghost two = file.push(number_argument("line"@, "Line number (0-based)"@));
            let ghost three = two.push(
                number_argument("character"@, "Character position (0-based)"@),
            );
            draft.add("file_path", "string", "Path to the Rust file", Ghost(none));
            draft.add("line", "number", "Line number (0-based)", Ghost(file));
            draft.add("character", "number", "Character position (0-based)", Ghost(two));
            assert(arguments_for(arity_of(tool)) =~= three);
            draft.finish(Ghost(three))
        },
        Arity::FileRange => {
            let ghost two = file.push(number_argument("line"@, "Start line number (0-based)"@));
            let ghost three = two.push(
                number_argument("character"@, "Start character position (0-based)"@),
            );
            let ghost four = three.push(
                number_argument("end_line"@, "End line number (0-based)"@),
            );
            let ghost five = four.push(
                number_argument("end_character"@, "End character position (0-based)"@),
            );
            draft.add("file_path", "string", "Path to the Rust file", Ghost(none));
            draft.add("line", "number", "Start line number (0-based)", Ghost(file));
            draft.add("character", "number", "Start character position (0-based)", Ghost(two));
            draft.add("end_line", "number", "End line number (0-based)", Ghost(three));
            draft.add("end_character", "number", "End character position (0-based)", Ghost(four));
            assert(arguments_for(arity_of(tool)) =~= five);
            draft.finish(Ghost(five))
        },
        Arity::Query => {
            draft.add(
                "query",
                "string",
                "Search query for symbol names (e.g., 'TradeData', 'calculate')",
                Ghost(none),
            );
            let ghost one = arguments_for(arity_of(tool));
            assert(none.push(one[0]) =~= one);
            draft.finish(Ghost(one))
        },
        Arity::WorkspacePath => {
            draft.add("workspace_path", "string", "Path to the workspace root", Ghost(none));
            let ghost one = arguments_for(arity_of(tool));
            assert(none.push(one[0]) =~= one);
            draft.finish(Ghost(one))
        },
    }
}

/// Builds the entry of `tool` in the list.
pub fn list_tool(tool: Tool) -> (entry: ToolDefinition)
    ensures
        entry@ == listing(tool),
{
    ToolDefinition {
        name: tool.name().to_owned(),
        description: tool.description().to_owned(),
        input_schema: input_schema(tool),
    }
}

/// The tools that the server lists, the one that sets the workspace first.
pub fn get_tools() -> (tools: Vec<ToolDefinition>)
    ensures
        tools@.len() == listed_tools().len(),
        forall|i: int| 0 <= i < tools@.len() ==> (#[trigger] tools@[i])@ == listing(listed_tools()[i]),
{
    let mut tools: Vec<ToolDefinition> = Vec::new();
    tools.push(list_tool(Tool::SetWorkspace));
    tools.push(list_tool(Tool::Hover));
    tools.push(list_tool(Tool::Definition));
    tools.push(list_tool(Tool::References));
    tools.push(list_tool(Tool::WorkspaceSymbol));
    tools.push(list_tool(Tool::Diagnostics));
    tools.push(list_tool(Tool::InlayHint));
    tools.push(list_tool(Tool::Implementation));
    tools.push(list_tool(Tool::IncomingCalls));
    tools.push(list_tool(Tool::OutgoingCalls));
    tools.push(list_tool(Tool::ParentModule));
    tools.push(list_tool(Tool::WorkspaceDiagnostics));
    tools
}

} // verus!
