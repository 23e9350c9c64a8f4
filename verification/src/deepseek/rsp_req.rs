//! DeepSeek's completion request and response.

use vstd::prelude::*;
use crate::completion::{
    CompletionError, CompletionErrorView, CompletionRequest, CompletionRequestView,
    CompletionResponse, Temperature, Usage,
};
use crate::deepseek::message::{DsMessage, DsMessageView, RigMessage};
use crate::deepseek::tool::{
    DsToolCall, DsToolCallView, DsToolChoice, DsToolChoiceView, DsToolDefinition,
    DsToolDefinitionView,
};
use crate::message::{
    AssistantContent, AssistantContentView, MessageView, ToolCall, ToolFunction,
};
use crate::one_or_many::OneOrMany;
use crate::text::{blank, is_blank};
use crate::views::{flat_map, group_views, lemma_flat_map_step, views};

verus! {

broadcast use group_views;

/// How the completion tokens divide.
#[derive(Clone, Copy, Debug, Default, PartialEq, Eq, Structural)]
pub struct CompletionTokensDetails {
    pub reasoning_tokens: Option<u32>,
}

/// How the prompt tokens divide.
#[derive(Clone, Copy, Debug, Default, PartialEq, Eq, Structural)]
pub struct PromptTokensDetails {
    pub cached_tokens: Option<u32>,
}

/// Token counts as DeepSeek reports them.
#[derive(Clone, Copy, Debug, Default, PartialEq, Eq, Structural)]
pub struct DsUsage {
    pub completion_tokens: u32,
    pub prompt_tokens: u32,
    pub prompt_cache_hit_tokens: u32,
    pub prompt_cache_miss_tokens: u32,
    pub total_tokens: u32,
    pub completion_tokens_details: Option<CompletionTokensDetails>,
    pub prompt_tokens_details: Option<PromptTokensDetails>,
}

impl DsUsage {
    /// The usage before anything was counted.
    pub open spec fn zero() -> DsUsage {
        DsUsage {
            completion_tokens: 0,
            prompt_tokens: 0,
            prompt_cache_hit_tokens: 0,
            prompt_cache_miss_tokens: 0,
            total_tokens: 0,
            completion_tokens_details: None,
            prompt_tokens_details: None,
        }
    }

    /// The counts in the unified form.
    pub open spec fn unified(self) -> Usage {
        Usage {
            input_tokens: self.prompt_tokens as u64,
            output_tokens: self.completion_tokens as u64,
            total_tokens: self.total_tokens as u64,
        }
    }

    /// All counts zero, no details.
    pub fn new() -> (r: DsUsage)
        ensures
            r == DsUsage::zero(),
    {
        DsUsage {
            completion_tokens: 0,
            prompt_tokens: 0,
            prompt_cache_hit_tokens: 0,
            prompt_cache_miss_tokens: 0,
            total_tokens: 0,
            completion_tokens_details: None,
            prompt_tokens_details: None,
        }
    }

    /// The counts in the unified form.
    pub fn token_usage(&self) -> (r: Usage)
        ensures
            r == self.unified(),
    {
        Usage {
            input_tokens: self.prompt_tokens as u64,
            output_tokens: self.completion_tokens as u64,
            total_tokens: self.total_tokens as u64,
        }
    }
}

/// One alternative answer of a response.
#[derive(Clone, Debug, PartialEq)]
pub struct Choice {
    pub index: usize,
    pub message: DsMessage,
    pub logprobs: Option<serde_json::Value>,
    pub finish_reason: String,
}

/// The model of `Choice`: its mathematical view.
pub struct ChoiceView {
    pub index: usize,
    pub message: DsMessageView,
    pub logprobs: Option<serde_json::Value>,
    pub finish_reason: Seq<char>,
}

impl View for Choice {
    type V = ChoiceView;

    open spec fn view(&self) -> ChoiceView {
        ChoiceView {
            index: self.index,
            message: self.message@,
            logprobs: self.logprobs,
            finish_reason: self.finish_reason@,
        }
    }
}

impl DeepView for Choice {
    type V = ChoiceView;

    open spec fn deep_view(&self) -> ChoiceView {
        self@
    }
}

/// A whole, non-streamed response of DeepSeek.
#[derive(Clone, Debug, PartialEq)]
pub struct DsCompletionResponse {
    pub choices: Vec<Choice>,
    pub usage: DsUsage,
}

/// The model of `DsCompletionResponse`: its mathematical view.
pub struct DsCompletionResponseView {
    pub choices: Seq<ChoiceView>,
    pub usage: DsUsage,
}

impl View for DsCompletionResponse {
    type V = DsCompletionResponseView;

    open spec fn view(&self) -> DsCompletionResponseView {
        DsCompletionResponseView { choices: self.choices.deep_view(), usage: self.usage }
    }
}

impl DsCompletionResponseView {
    /// A wire tool call as a part of the decoded answer.
    pub open spec fn call_part() -> spec_fn(DsToolCallView) -> AssistantContentView {
        |call: DsToolCallView| AssistantContentView::ToolCall(call.decoded())
    }

    /// What the response says, in the unified model.
    ///
    /// Only the first choice counts. It must be an assistant message: its
    /// text, unless blank, comes first, its tool calls after it in their
    /// order. A response without choices, with another kind of message, or
    /// with neither text nor tool call is an error.
    pub open spec fn decoded(self) -> Result<Seq<AssistantContentView>, CompletionErrorView> {
        if self.choices.len() == 0 {
            Err(CompletionErrorView::ResponseError("Response contained no choices"@))
        } else {
            match self.choices[0].message {
                DsMessageView::Assistant { content, tool_calls, .. } => {
                    let text = if blank(content) {
                        Seq::empty()
                    } else {
                        seq![AssistantContentView::Text(content)]
                    };
                    let parts = text + tool_calls.map_values(Self::call_part());
                    if parts.len() == 0 {
                        Err(
                            CompletionErrorView::ResponseError(
                                "Response contained no message or tool call (empty)"@,
                            ),
                        )
                    } else {
                        Ok(parts)
                    }
                },
                _ => Err(
                    CompletionErrorView::ResponseError(
                        "Response did not contain a valid message or tool call"@,
                    ),
                ),
            }
        }
    }
}

impl DsToolCall {
    /// The tool call of the unified model that this wire form stands for.
    pub fn decode(&self) -> (r: ToolCall)
        ensures
            r@ == self@.decoded(),
    {
        ToolCall {
            id: self.id.clone(),
            call_id: None,
            function: ToolFunction {
                name: self.function.name.clone(),
                arguments: self.function.arguments.clone(),
            },
        }
    }
}

impl CompletionResponse<DsCompletionResponse> {
    /// Decodes a whole response into the unified model.
    pub fn try_from(response: DsCompletionResponse) -> (r: Result<Self, CompletionError>)
        ensures
            match r {
                Ok(decoded) => {
                    &&& response@.decoded() == Ok::<_, CompletionErrorView>(
                        decoded.choice.deep_view(),
                    )
                    &&& decoded.usage == response.usage.unified()
                    &&& decoded.raw_response == response
                },
                Err(error) => response@.decoded() == Err::<Seq<AssistantContentView>, _>(error@),
            },
    {
        if response.choices.len() == 0 {
            return Err(
                CompletionError::ResponseError("Response contained no choices".to_owned()),
            );
        }
        let mut parts: Vec<AssistantContent> = Vec::new();
        match &response.choices[0].message {
            DsMessage::Assistant { content, name: _, tool_calls } => {
                if !is_blank(content.as_str()) {
                    parts.push(AssistantContent::Text(content.clone()));
                }
                let ghost text = views(parts@);
                let ghost calls = tool_calls.deep_view();
                let mut i: usize = 0;
                while i < tool_calls.len()
                    invariant
                        i <= tool_calls.len(),
                        calls == tool_calls.deep_view(),
                        views(parts@) == text + calls.take(i as int).map_values(
                            DsCompletionResponseView::call_part(),
                        ),
                    decreases tool_calls.len() - i,
                {
                    proof {
                        let f = DsCompletionResponseView::call_part();
                        assert(calls.take(i + 1).map_values(f) =~= calls.take(
                            i as int,
                        ).map_values(f).push(f(calls[i as int])));
                    }
                    parts.push(AssistantContent::ToolCall(tool_calls[i].decode()));
                    i += 1;
                }
                proof {
                    assert(calls.take(calls.len() as int) =~= calls);
                }
            },
            _ => {
                return Err(
                    CompletionError::ResponseError(
                        "Response did not contain a valid message or tool call".to_owned(),
                    ),
                );
            },
        }
        let choice = match OneOrMany::many(parts) {
            Ok(choice) => choice,
            Err(_) => {
                return Err(
                    CompletionError::ResponseError(
                        "Response contained no message or tool call (empty)".to_owned(),
                    ),
                );
            },
        };
        let usage = response.usage.token_usage();
        Ok(CompletionResponse { choice, usage, raw_response: response })
    }
}

/// A completion request as DeepSeek takes it.
#[derive(Clone, Debug, PartialEq)]
pub struct DsRequest {
    pub model: String,
    pub messages: Vec<DsMessage>,
    pub temperature: Option<Temperature>,
    /// The tools the model may call; none is written where this is empty.
    pub tools: Vec<DsToolDefinition>,
    /// Written only together with tools.
    pub tool_choice: Option<DsToolChoice>,
    /// Merged into the request after everything else.
    pub additional_params: Option<serde_json::Value>,
}

/// The model of `DsRequest`: its mathematical view.
pub struct DsRequestView {
    pub model: Seq<char>,
    pub messages: Seq<DsMessageView>,
    pub temperature: Option<Temperature>,
    pub tools: Seq<DsToolDefinitionView>,
    pub tool_choice: Option<DsToolChoiceView>,
    pub additional_params: Option<serde_json::Value>,
}

impl View for DsRequest {
    type V = DsRequestView;

    open spec fn view(&self) -> DsRequestView {
        DsRequestView {
            model: self.model@,
            messages: self.messages.deep_view(),
            temperature: self.temperature,
            tools: self.tools.deep_view(),
            tool_choice: self.tool_choice.deep_view(),
            additional_params: self.additional_params,
        }
    }
}

impl DsRequestView {
    /// The encoding of one message, as a function.
    pub open spec fn encoding() -> spec_fn(MessageView) -> Seq<DsMessageView> {
        |message: MessageView| DsMessageView::encoded(message)
    }

    /// The system message for the preamble, if there is a preamble.
    pub open spec fn preamble_messages(preamble: Option<Seq<char>>) -> Seq<DsMessageView> {
        match preamble {
            Some(text) => seq![DsMessageView::System { content: text, name: None }],
            None => Seq::empty(),
        }
    }

    /// The messages of a request: the preamble, then what the context
    /// documents encode to, then what the chat history encodes to.
    pub open spec fn messages_of(request: CompletionRequestView) -> Seq<DsMessageView> {
        Self::preamble_messages(request.preamble) + flat_map(
            request.ordered_history(),
            Self::encoding(),
        )
    }

    /// The tool choice of a request; it is written only with tools.
    pub open spec fn tool_choice_of(request: CompletionRequestView) -> Option<DsToolChoiceView> {
        if request.tools.len() == 0 {
            None
        } else {
            match request.tool_choice {
                Some(choice) => Some(DsToolChoiceView::of(choice)),
                None => None,
            }
        }
    }

    /// The request that DeepSeek is sent for a unified request to `model`.
    pub open spec fn of(model: Seq<char>, request: CompletionRequestView) -> DsRequestView {
        DsRequestView {
            model,
            messages: Self::messages_of(request),
            temperature: request.temperature,
            tools: request.tools.map_values(DsToolDefinitionView::of_fn()),
            tool_choice: Self::tool_choice_of(request),
            additional_params: request.additional_params,
        }
    }
}

/// Encodes a unified request for DeepSeek. Every request can be encoded.
pub fn create_completion_request(model: String, completion_request: CompletionRequest) -> (r:
    Result<DsRequest, CompletionError>)
    ensures
        r is Ok,
        r->Ok_0@ == DsRequestView::of(model@, completion_request@),
{
    let ghost request = completion_request@;
    let documents = completion_request.normalized_documents();
    let CompletionRequest {
        preamble,
        chat_history,
        documents: _,
        tools,
        temperature,
        max_tokens: _,
        tool_choice,
        additional_params,
    } = completion_request;

    let mut full_history: Vec<DsMessage> = Vec::new();
    match preamble {
        Some(text) => {
            full_history.push(DsMessage::system(text.as_str()));
        },
        None => {},
    }
    let ghost head = full_history.deep_view();
    assert(head == DsRequestView::preamble_messages(request.preamble));
    let ghost ordered = request.ordered_history();
    let ghost lead: int = if documents is Some { 1 } else { 0 };
    match documents {
        Some(message) => {
            proof {
                lemma_flat_map_step(ordered, DsRequestView::encoding(), 0);
                assert(ordered.take(0) =~= Seq::<MessageView>::empty());
            }
            match RigMessage(message).try_into() {
                Ok(mut encoded) => {
                    full_history.append(&mut encoded);
                },
                Err(error) => {
                    return Err(CompletionError::from(error));
                },
            }
        },
        None => {},
    }
    assert(full_history.deep_view() == head + flat_map(
        ordered.take(lead),
        DsRequestView::encoding(),
    ));
    for message in it: chat_history
        invariant
            views(it.seq()) == request.chat_history,
            ordered == request.ordered_history(),
            ordered.len() == lead + request.chat_history.len(),
            ordered.skip(lead) == request.chat_history,
            lead == 0 || lead == 1,
            full_history.deep_view() == head + flat_map(
                ordered.take(lead + it.index()),
                DsRequestView::encoding(),
            ),
    {
        proof {
            lemma_flat_map_step(ordered, DsRequestView::encoding(), lead + it.index());
            assert(ordered[lead + it.index()] == ordered.skip(lead)[it.index() as int]);
        }
        match RigMessage(message).try_into() {
            Ok(mut encoded) => {
                full_history.append(&mut encoded);
            },
            Err(error) => {
                return Err(CompletionError::from(error));
            },
        }
    }
    proof {
        assert(ordered.take(ordered.len() as int) =~= ordered);
    }

    let no_tools = tools.len() == 0;
    let ghost tool_views = views(tools@);
    let mut definitions: Vec<DsToolDefinition> = Vec::new();
    for tool in it: tools
        invariant
            views(it.seq()) == tool_views,
            definitions.deep_view() == tool_views.take(it.index() as int).map_values(
                DsToolDefinitionView::of_fn(),
            ),
    {
        proof {
            let f = DsToolDefinitionView::of_fn();
            let i = it.index() as int;
            assert(tool_views.take(i + 1).map_values(f) =~= tool_views.take(i).map_values(
                f,
            ).push(f(tool_views[i])));
        }
        definitions.push(DsToolDefinition::from(tool));
    }
    proof {
        assert(tool_views.take(tool_views.len() as int) =~= tool_views);
    }
    let choice = if no_tools {
        None
    } else {
        match tool_choice {
            Some(choice) => match DsToolChoice::try_from(choice) {
                Ok(encoded) => Some(encoded),
                Err(error) => {
                    return Err(error);
                },
            },
            None => None,
        }
    };
    Ok(
        DsRequest {
            model,
            messages: full_history,
            temperature,
            tools: definitions,
            tool_choice: choice,
            additional_params,
        },
    )
}

/// The ordering invariant: in the messages of a request with documents, the
/// preamble comes first, then all that the context documents encode to,
/// then all that the chat history encodes to, so every message that stems
/// from a document stands before every message that stems from the history.
pub proof fn law_documents_precede_history(request: CompletionRequestView)
    requires
        request.documents.len() > 0,
    ensures
        request.normalized_documents() is Some,
        DsRequestView::messages_of(request) == DsRequestView::preamble_messages(request.preamble)
            + DsMessageView::encoded(request.normalized_documents()->0) + flat_map(
            request.chat_history,
            DsRequestView::encoding(),
        ),
{
    crate::completion::law_documents_precede_history(request, DsRequestView::encoding());
    let head = DsRequestView::preamble_messages(request.preamble);
    let documents = DsMessageView::encoded(request.normalized_documents()->0);
    let history = flat_map(request.chat_history, DsRequestView::encoding());
    assert(head + (documents + history) =~= head + documents + history);
}

} // verus!
