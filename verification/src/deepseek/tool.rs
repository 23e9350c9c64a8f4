//! Tools in DeepSeek's wire format.

use vstd::prelude::*;
use crate::completion::{CompletionError, ToolChoice, ToolChoiceView, ToolDefinition, ToolDefinitionView};
use crate::message::{ToolCall, ToolCallView, ToolFunctionView};
use crate::views::{views, group_views};

verus! {

broadcast use group_views;

/// The kind of a tool; DeepSeek knows functions only.
#[derive(Default, Clone, Copy, Debug, PartialEq, Eq, Structural)]
pub enum DsToolType {
    #[default]
    Function,
}

/// The function a tool call names, with its arguments.
#[derive(Clone, Debug, PartialEq)]
pub struct DsFunction {
    pub name: String,
    pub arguments: serde_json::Value,
}

/// The model of `DsFunction`: its mathematical view.
pub struct DsFunctionView {
    pub name: Seq<char>,
    pub arguments: serde_json::Value,
}

impl View for DsFunction {
    type V = DsFunctionView;

    open spec fn view(&self) -> DsFunctionView {
        DsFunctionView { name: self.name@, arguments: self.arguments }
    }
}

/// A tool call as DeepSeek writes it.
#[derive(Clone, Debug, PartialEq)]
pub struct DsToolCall {
    pub id: String,
    /// The position of the call among the calls of one response.
    pub index: usize,
    pub kind: DsToolType,
    pub function: DsFunction,
}

/// The model of `DsToolCall`: its mathematical view.
pub struct DsToolCallView {
    pub id: Seq<char>,
    pub index: usize,
    pub kind: DsToolType,
    pub function: DsFunctionView,
}

impl View for DsToolCall {
    type V = DsToolCallView;

    open spec fn view(&self) -> DsToolCallView {
        DsToolCallView {
            id: self.id@,
            index: self.index,
            kind: self.kind,
            function: self.function@,
        }
    }
}

impl DeepView for DsToolCall {
    type V = DsToolCallView;

    open spec fn deep_view(&self) -> DsToolCallView {
        self@
    }
}

impl DsToolCallView {
    /// The wire form of a tool call of the unified model: its index is not
    /// known and written as zero.
    pub open spec fn of(call: ToolCallView) -> DsToolCallView {
        DsToolCallView {
            id: call.id,
            index: 0,
            kind: DsToolType::Function,
            function: DsFunctionView {
                name: call.function.name,
                arguments: call.function.arguments,
            },
        }
    }

    /// The tool call of the unified model that the wire form stands for.
    pub open spec fn decoded(self) -> ToolCallView {
        ToolCallView {
            id: self.id,
            call_id: None,
            function: ToolFunctionView {
                name: self.function.name,
                arguments: self.function.arguments,
            },
        }
    }
}

impl DsToolCall {
    /// The wire form of a tool call of the unified model.
    pub fn from(tool_call: ToolCall) -> (r: DsToolCall)
        ensures
            r@ == DsToolCallView::of(tool_call@),
    {
        DsToolCall {
            id: tool_call.id,
            index: 0,
            kind: DsToolType::Function,
            function: DsFunction {
                name: tool_call.function.name,
                arguments: tool_call.function.arguments,
            },
        }
    }
}

/// A tool definition as DeepSeek writes it.
#[derive(Clone, Debug, PartialEq)]
pub struct DsToolDefinition {
    /// Always `function`.
    pub kind: String,
    pub function: ToolDefinition,
}

/// The model of `DsToolDefinition`: its mathematical view.
pub struct DsToolDefinitionView {
    pub kind: Seq<char>,
    pub function: ToolDefinitionView,
}

impl View for DsToolDefinition {
    type V = DsToolDefinitionView;

    open spec fn view(&self) -> DsToolDefinitionView {
        DsToolDefinitionView { kind: self.kind@, function: self.function@ }
    }
}

impl DeepView for DsToolDefinition {
    type V = DsToolDefinitionView;

    open spec fn deep_view(&self) -> DsToolDefinitionView {
        self@
    }
}

impl DsToolDefinitionView {
    /// The wire form of a tool definition.
    pub open spec fn of(tool: ToolDefinitionView) -> DsToolDefinitionView {
        DsToolDefinitionView { kind: "function"@, function: tool }
    }

    /// `of`, as a function.
    pub open spec fn of_fn() -> spec_fn(ToolDefinitionView) -> DsToolDefinitionView {
        |tool: ToolDefinitionView| DsToolDefinitionView::of(tool)
    }
}

impl DsToolDefinition {
    /// The wire form of a tool definition.
    pub fn from(tool: ToolDefinition) -> (r: DsToolDefinition)
        ensures
            r@ == DsToolDefinitionView::of(tool@),
    {
        DsToolDefinition { kind: "function".to_owned(), function: tool }
    }
}

/// One function that a tool choice names.
#[derive(Clone, Debug, PartialEq)]
pub enum ToolChoiceFunctionKind {
    Function { name: String },
}

impl DeepView for ToolChoiceFunctionKind {
    type V = Seq<char>;

    /// The function's name.
    open spec fn deep_view(&self) -> Seq<char> {
        match self {
            ToolChoiceFunctionKind::Function { name } => name@,
        }
    }
}

/// A tool choice as DeepSeek writes it.
#[derive(Clone, Debug, PartialEq)]
pub enum DsToolChoice {
    Disabled,
    Auto,
    Required,
    Function(Vec<ToolChoiceFunctionKind>),
}

/// The model of `DsToolChoice`: its mathematical view.
pub enum DsToolChoiceView {
    Disabled,
    Auto,
    Required,
    /// The names of the functions to choose from.
    Function(Seq<Seq<char>>),
}

impl View for DsToolChoice {
    type V = DsToolChoiceView;

    open spec fn view(&self) -> DsToolChoiceView {
        match self {
            DsToolChoice::Disabled => DsToolChoiceView::Disabled,
            DsToolChoice::Auto => DsToolChoiceView::Auto,
            DsToolChoice::Required => DsToolChoiceView::Required,
            DsToolChoice::Function(functions) => DsToolChoiceView::Function(
                functions.deep_view(),
            ),
        }
    }
}

impl DeepView for DsToolChoice {
    type V = DsToolChoiceView;

    open spec fn deep_view(&self) -> DsToolChoiceView {
        self@
    }
}

impl DsToolChoiceView {
    /// The wire form of a tool choice.
    pub open spec fn of(choice: ToolChoiceView) -> DsToolChoiceView {
        match choice {
            ToolChoiceView::Disabled => DsToolChoiceView::Disabled,
            ToolChoiceView::Auto => DsToolChoiceView::Auto,
            ToolChoiceView::Required => DsToolChoiceView::Required,
            ToolChoiceView::Specific { function_names } => DsToolChoiceView::Function(
                function_names,
            ),
        }
    }
}

impl DsToolChoice {
    /// The wire form of a tool choice; every choice has one.
    pub fn try_from(value: ToolChoice) -> (r: Result<DsToolChoice, CompletionError>)
        ensures
            r is Ok,
            r->Ok_0@ == DsToolChoiceView::of(value@),
    {
        let res = match value {
            ToolChoice::Disabled => DsToolChoice::Disabled,
            ToolChoice::Auto => DsToolChoice::Auto,
            ToolChoice::Required => DsToolChoice::Required,
            ToolChoice::Specific { function_names } => {
                let ghost names = function_names@;
                let mut functions: Vec<ToolChoiceFunctionKind> = Vec::new();
                for name in it: function_names
                    invariant
                        it.seq() == names,
                        functions.deep_view() == views(names).take(it.index() as int),
                {
                    proof {
                        let i = it.index() as int;
                        assert(views(names).take(i + 1) =~= views(names).take(i).push(name@));
                    }
                    functions.push(ToolChoiceFunctionKind::Function { name });
                }
                proof {
                    assert(views(names).take(names.len() as int) =~= views(names));
                }
                DsToolChoice::Function(functions)
            },
        };
        Ok(res)
    }
}

} // verus!
