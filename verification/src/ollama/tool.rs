//! Tools in Ollama's wire format.

use vstd::prelude::*;
use crate::completion::{ToolDefinition, ToolDefinitionView};
use crate::message::{ToolCall, ToolCallView, ToolFunction, ToolFunctionView};

verus! {

/// A tool definition as Ollama writes it.
#[derive(Clone, Debug, PartialEq)]
pub struct OlToolDefinition {
    /// Always `function`.
    pub type_field: String,
    pub function: ToolDefinition,
}

/// The model of `OlToolDefinition`: its mathematical view.
pub struct OlToolDefinitionView {
    pub type_field: Seq<char>,
    pub function: ToolDefinitionView,
}

impl View for OlToolDefinition {
    type V = OlToolDefinitionView;

    open spec fn view(&self) -> OlToolDefinitionView {
        OlToolDefinitionView { type_field: self.type_field@, function: self.function@ }
    }
}

impl DeepView for OlToolDefinition {
    type V = OlToolDefinitionView;

    open spec fn deep_view(&self) -> OlToolDefinitionView {
        self@
    }
}

impl OlToolDefinitionView {
    /// The wire form of a tool definition.
    pub open spec fn of(tool: ToolDefinitionView) -> OlToolDefinitionView {
        OlToolDefinitionView { type_field: "function"@, function: tool }
    }

    /// `of`, as a function.
    pub open spec fn of_fn() -> spec_fn(ToolDefinitionView) -> OlToolDefinitionView {
        |tool: ToolDefinitionView| OlToolDefinitionView::of(tool)
    }
}

impl OlToolDefinition {
    /// The wire form of a tool definition.
    pub fn from(tool: ToolDefinition) -> (r: OlToolDefinition)
        ensures
            r@ == OlToolDefinitionView::of(tool@),
    {
        OlToolDefinition {
            type_field: "function".to_owned(),
            function: ToolDefinition {
                name: tool.name,
                description: tool.description,
                parameters: tool.parameters,
            },
        }
    }
}

/// The kind of a tool; Ollama knows functions only.
#[derive(Default, Clone, Copy, Debug, PartialEq, Eq, Structural)]
pub enum OlToolType {
    #[default]
    Function,
}

/// The function a tool call names, with its arguments.
#[derive(Clone, Debug, PartialEq)]
pub struct Function {
    pub name: String,
    pub arguments: serde_json::Value,
}

/// A tool call as Ollama writes it.
#[derive(Clone, Debug, PartialEq)]
pub struct OlToolCall {
    pub kind: OlToolType,
    pub function: Function,
}

/// The model of `OlToolCall`: its mathematical view.
pub struct OlToolCallView {
    pub kind: OlToolType,
    pub name: Seq<char>,
    pub arguments: serde_json::Value,
}

impl View for OlToolCall {
    type V = OlToolCallView;

    open spec fn view(&self) -> OlToolCallView {
        OlToolCallView {
            kind: self.kind,
            name: self.function.name@,
            arguments: self.function.arguments,
        }
    }
}

impl DeepView for OlToolCall {
    type V = OlToolCallView;

    open spec fn deep_view(&self) -> OlToolCallView {
        self@
    }
}

impl OlToolCallView {
    /// The wire form of a tool call of the unified model. Ollama's calls
    /// have no id.
    pub open spec fn of(call: ToolCallView) -> OlToolCallView {
        OlToolCallView {
            kind: OlToolType::Function,
            name: call.function.name,
            arguments: call.function.arguments,
        }
    }

    /// The tool call of the unified model that the wire form stands for; the
    /// name of the function serves as the call's id.
    pub open spec fn decoded(self) -> ToolCallView {
        ToolCallView {
            id: self.name,
            call_id: None,
            function: ToolFunctionView { name: self.name, arguments: self.arguments },
        }
    }
}

impl OlToolCall {
    /// The wire form of a tool call of the unified model.
    pub fn from(tool_call: ToolCall) -> (r: OlToolCall)
        ensures
            r@ == OlToolCallView::of(tool_call@),
    {
        OlToolCall {
            kind: OlToolType::Function,
            function: Function {
                name: tool_call.function.name,
                arguments: tool_call.function.arguments,
            },
        }
    }

    /// The tool call of the unified model that this wire form stands for.
    pub fn decode(&self) -> (r: ToolCall)
        ensures
            r@ == self@.decoded(),
    {
        ToolCall {
            id: self.function.name.clone(),
            call_id: None,
            function: ToolFunction {
                name: self.function.name.clone(),
                arguments: self.function.arguments.clone(),
            },
        }
    }

    /// A copy of the call.
    pub fn duplicate(&self) -> (r: OlToolCall)
        ensures
            r@ == self@,
    {
        OlToolCall {
            kind: self.kind,
            function: Function {
                name: self.function.name.clone(),
                arguments: self.function.arguments.clone(),
            },
        }
    }
}

} // verus!
