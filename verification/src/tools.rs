//! Tool descriptors discovered from the tool-provider process and their
//! translation into the chat model's tool schema.

use vstd::prelude::*;

verus! {

/// One capability discovered from the tool-provider process: a unique name,
/// an optional human-readable description, and the input schema as an opaque
/// JSON value.
pub struct ToolDescriptor {
    pub name: String,
    pub description: Option<String>,
    pub input_schema: serde_json::Value,
}

/// Mathematical model of a [`ToolDescriptor`].
pub ghost struct ToolDescriptorV {
    pub name: Seq<char>,
    pub description: Option<Seq<char>>,
    pub input_schema: serde_json::Value,
}

impl View for ToolDescriptor {
    type V = ToolDescriptorV;

    open spec fn view(&self) -> ToolDescriptorV {
        ToolDescriptorV {
            name: self.name@,
            description: self.description.deep_view(),
            input_schema: self.input_schema,
        }
    }
}

impl DeepView for ToolDescriptor {
    type V = ToolDescriptorV;

    open spec fn deep_view(&self) -> ToolDescriptorV {
        self.view()
    }
}

/// One tool in the chat model's schema: the descriptor's name and description
/// carried over verbatim, the input schema wrapped as an optional value.
pub struct ChatTool {
    pub name: String,
    pub description: Option<String>,
    pub schema: Option<serde_json::Value>,
}

/// Mathematical model of a [`ChatTool`].
pub ghost struct ChatToolV {
    pub name: Seq<char>,
    pub description: Option<Seq<char>>,
    pub schema: Option<serde_json::Value>,
}

impl View for ChatTool {
    type V = ChatToolV;

    open spec fn view(&self) -> ChatToolV {
        ChatToolV {
            name: self.name@,
            description: self.description.deep_view(),
            schema: self.schema,
        }
    }
}

impl DeepView for ChatTool {
    type V = ChatToolV;

    open spec fn deep_view(&self) -> ChatToolV {
        self.view()
    }
}

/// What translation does to one descriptor: name and description copied
/// verbatim, the input schema wrapped as a present value.
pub open spec fn chat_tool_of(t: ToolDescriptorV) -> ChatToolV {
    ChatToolV { name: t.name, description: t.description, schema: Some(t.input_schema) }
}

/// The names of the discovered tools, in order, as they are announced when a
/// connection succeeds.
pub fn tool_names(tools: &Vec<ToolDescriptor>) -> (r: Vec<String>)
    ensures
        r.deep_view().len() == tools.deep_view().len(),
        forall|i: int|
            0 <= i < tools.deep_view().len() ==> r.deep_view()[i] == tools.deep_view()[i].name,
{
    let mut r: Vec<String> = Vec::new();
    let mut i: usize = 0;
    while i < tools.len()
        invariant
            i <= tools.len(),
            r.deep_view().len() == i,
            forall|j: int| 0 <= j < i ==> r.deep_view()[j] == tools.deep_view()[j].name,
        decreases tools.len() - i,
    {
        let ghost prev = r.deep_view();
        r.push(tools[i].name.clone());
        proof {
            assert(r.deep_view() =~= prev.push(tools.deep_view()[i as int].name));
        }
        i = i + 1;
    }
    r
}

fn clone_opt_string(s: &Option<String>) -> (r: Option<String>)
    ensures
        r.deep_view() == s.deep_view(),
{
    match s {
        Some(x) => Some(x.clone()),
        None => None,
    }
}

/// Translates every discovered descriptor into the chat schema, in order,
/// one tool per descriptor.
pub fn convert_tools(tools: &Vec<ToolDescriptor>) -> (r: Vec<ChatTool>)
    ensures
        r.deep_view().len() == tools.deep_view().len(),
        forall|i: int|
            0 <= i < tools.deep_view().len() ==> r.deep_view()[i] == chat_tool_of(
                tools.deep_view()[i],
            ),
{
    let mut r: Vec<ChatTool> = Vec::new();
    let mut i: usize = 0;
    while i < tools.len()
        invariant
            i <= tools.len(),
            r.deep_view().len() == i,
            forall|j: int|
                0 <= j < i ==> r.deep_view()[j] == chat_tool_of(tools.deep_view()[j]),
        decreases tools.len() - i,
    {
        let t = &tools[i];
        let tool = ChatTool {
            name: t.name.clone(),
            description: clone_opt_string(&t.description),
            schema: Some(crate::json::clone_value(&t.input_schema)),
        };
        proof {
            assert(tool@ == chat_tool_of(tools.deep_view()[i as int]));
        }
        let ghost prev = r.deep_view();
        r.push(tool);
        proof {
            assert(r.deep_view() =~= prev.push(chat_tool_of(tools.deep_view()[i as int])));
        }
        i = i + 1;
    }
    r
}

} // verus!
