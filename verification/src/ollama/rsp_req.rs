//! Ollama's completion request and response.

use vstd::prelude::*;
use crate::completion::{
    CompletionError, CompletionErrorView, CompletionRequest, CompletionRequestView,
    CompletionResponse, Temperature, Usage,
};
use crate::message::{AssistantContent, AssistantContentView, MessageView};
use crate::ollama::message::{OlMessage, OlMessageView, RigMessage};
use crate::ollama::tool::{OlToolDefinition, OlToolDefinitionView};
use crate::one_or_many::OneOrMany;
use crate::views::{flat_map, group_views, lemma_flat_map_step, views};

verus! {

broadcast use group_views;

/// One response of Ollama: a whole answer, or one line of a streamed one.
#[derive(Clone, Debug, PartialEq)]
pub struct OllamaCompletionResponse {
    pub model: String,
    pub created_at: String,
    pub message: OlMessage,
    /// Whether the answer is complete.
    pub done: bool,
    pub done_reason: Option<String>,
    pub total_duration: Option<u64>,
    pub load_duration: Option<u64>,
    /// The number of tokens of the prompt.
    pub prompt_eval_count: Option<u64>,
    pub prompt_eval_duration: Option<u64>,
    /// The number of tokens of the answer.
    pub eval_count: Option<u64>,
    pub eval_duration: Option<u64>,
}

/// The model of `OllamaCompletionResponse`: its mathematical view.
pub struct OllamaCompletionResponseView {
    pub model: Seq<char>,
    pub created_at: Seq<char>,
    pub message: OlMessageView,
    pub done: bool,
    pub done_reason: Option<Seq<char>>,
    pub total_duration: Option<u64>,
    pub load_duration: Option<u64>,
    pub prompt_eval_count: Option<u64>,
    pub prompt_eval_duration: Option<u64>,
    pub eval_count: Option<u64>,
    pub eval_duration: Option<u64>,
}

impl View for OllamaCompletionResponse {
    type V = OllamaCompletionResponseView;

    open spec fn view(&self) -> OllamaCompletionResponseView {
        OllamaCompletionResponseView {
            model: self.model@,
            created_at: self.created_at@,
            message: self.message@,
            done: self.done,
            done_reason: self.done_reason.deep_view(),
            total_duration: self.total_duration,
            load_duration: self.load_duration,
            prompt_eval_count: self.prompt_eval_count,
            prompt_eval_duration: self.prompt_eval_duration,
            eval_count: self.eval_count,
            eval_duration: self.eval_duration,
        }
    }
}

impl DeepView for OllamaCompletionResponse {
    type V = OllamaCompletionResponseView;

    open spec fn deep_view(&self) -> OllamaCompletionResponseView {
        self@
    }
}

/// A count that may be missing, zero where it is.
pub open spec fn count(n: Option<u64>) -> int {
    match n {
        Some(n) => n as int,
        None => 0,
    }
}

impl OllamaCompletionResponseView {
    /// A wire tool call as a part of the decoded answer.
    pub open spec fn call_part() -> spec_fn(crate::ollama::tool::OlToolCallView) -> AssistantContentView {
        |call: crate::ollama::tool::OlToolCallView| AssistantContentView::ToolCall(call.decoded())
    }

    /// What the response says, in the unified model.
    ///
    /// The message must be an assistant message: its text, unless empty,
    /// comes first, its tool calls after it in their order. Another kind of
    /// message, or one with neither text nor tool call, is an error.
    pub open spec fn decoded(self) -> Result<Seq<AssistantContentView>, CompletionErrorView> {
        match self.message {
            OlMessageView::Assistant { content, tool_calls, .. } => {
                let text = if content.len() == 0 {
                    Seq::empty()
                } else {
                    seq![AssistantContentView::Text(content)]
                };
                let parts = text + tool_calls.map_values(Self::call_part());
                if parts.len() == 0 {
                    Err(CompletionErrorView::ResponseError("No content provided"@))
                } else {
                    Ok(parts)
                }
            },
            _ => Err(
                CompletionErrorView::ResponseError(
                    "Chat response does not include an assistant message"@,
                ),
            ),
        }
    }

    /// The token counts of the response; a missing count is zero.
    pub open spec fn usage(self) -> Usage {
        Usage {
            input_tokens: count(self.prompt_eval_count) as u64,
            output_tokens: count(self.eval_count) as u64,
            total_tokens: (count(self.prompt_eval_count) + count(self.eval_count)) as u64,
        }
    }

    /// The response as it is kept beside the decoded answer: the same, but
    /// that the images and the name of its message are dropped.
    pub open spec fn kept(self) -> OllamaCompletionResponseView {
        match self.message {
            OlMessageView::Assistant { content, thinking, tool_calls, .. } => {
                OllamaCompletionResponseView {
                    message: OlMessageView::Assistant {
                        content,
                        thinking,
                        images: None,
                        name: None,
                        tool_calls,
                    },
                    ..self
                }
            },
            _ => self,
        }
    }
}

impl CompletionResponse<OllamaCompletionResponse> {
    /// Decodes a whole response into the unified model.
    pub fn try_from(resp: OllamaCompletionResponse) -> (r: Result<Self, CompletionError>)
        requires
            count(resp.prompt_eval_count) + count(resp.eval_count) <= u64::MAX,
        ensures
            match r {
                Ok(decoded) => {
                    &&& resp@.decoded() == Ok::<_, CompletionErrorView>(decoded.choice.deep_view())
                    &&& decoded.usage == resp@.usage()
                    &&& decoded.raw_response@ == resp@.kept()
                },
                Err(error) => resp@.decoded() == Err::<Seq<AssistantContentView>, _>(error@),
            },
    {
        let OllamaCompletionResponse {
            model,
            created_at,
            message,
            done,
            done_reason,
            total_duration,
            load_duration,
            prompt_eval_count,
            prompt_eval_duration,
            eval_count,
            eval_duration,
        } = resp;
        match message {
            OlMessage::Assistant { content, thinking, images: _, name: _, tool_calls } => {
                let mut parts: Vec<AssistantContent> = Vec::new();
                if !content.as_str().is_empty() {
                    parts.push(AssistantContent::Text(content.clone()));
                }
                let ghost text = views(parts@);
                let ghost calls = tool_calls.deep_view();
                let mut i: usize = 0;
                while i < tool_calls.len()
                    invariant
                        i <= tool_calls.len(),
                        calls == tool_calls.deep_view(),
                        views(parts@) == text + calls.take(i as int).map_values(
                            OllamaCompletionResponseView::call_part(),
                        ),
                    decreases tool_calls.len() - i,
                {
                    proof {
                        let f = OllamaCompletionResponseView::call_part();
                        assert(calls.take(i + 1).map_values(f) =~= calls.take(
                            i as int,
                        ).map_values(f).push(f(calls[i as int])));
                        assert(text + calls.take(i as int).map_values(f).push(f(calls[i as int]))
                            =~= (text + calls.take(i as int).map_values(f)).push(
                            f(calls[i as int]),
                        ));
                    }
                    parts.push(AssistantContent::ToolCall(tool_calls[i].decode()));
                    i += 1;
                }
                proof {
                    assert(calls.take(calls.len() as int) =~= calls);
                }
                let choice = match OneOrMany::many(parts) {
                    Ok(choice) => choice,
                    Err(_) => {
                        return Err(
                            CompletionError::ResponseError("No content provided".to_owned()),
                        );
                    },
                };
                let prompt_tokens = match prompt_eval_count {
                    Some(n) => n,
                    None => 0,
                };
                let completion_tokens = match eval_count {
                    Some(n) => n,
                    None => 0,
                };
                let raw_response = OllamaCompletionResponse {
                    model,
                    created_at,
                    done,
                    done_reason,
                    total_duration,
                    load_duration,
                    prompt_eval_count,
                    prompt_eval_duration,
                    eval_count,
                    eval_duration,
                    message: OlMessage::Assistant {
                        content,
                        thinking,
                        images: None,
                        name: None,
                        tool_calls,
                    },
                };
                Ok(
                    CompletionResponse {
                        choice,
                        usage: Usage {
                            input_tokens: prompt_tokens,
                            output_tokens: completion_tokens,
                            total_tokens: prompt_tokens + completion_tokens,
                        },
                        raw_response,
                    },
                )
            },
            _ => Err(
                CompletionError::ResponseError(
                    "Chat response does not include an assistant message".to_owned(),
                ),
            ),
        }
    }

    /// Decodes a whole response into the unified model, where its token
    /// counts can be added up; gives `None` where their sum is too large.
    pub fn try_from_checked(resp: OllamaCompletionResponse) -> (r: Option<
        Result<Self, CompletionError>,
    >)
        ensures
            r is Some <==> count(resp.prompt_eval_count) + count(resp.eval_count) <= u64::MAX,
            match r {
                Some(Ok(decoded)) => {
                    &&& resp@.decoded() == Ok::<_, CompletionErrorView>(decoded.choice.deep_view())
                    &&& decoded.usage == resp@.usage()
                    &&& decoded.raw_response@ == resp@.kept()
                },
                Some(Err(error)) => resp@.decoded() == Err::<Seq<AssistantContentView>, _>(
                    error@,
                ),
                None => true,
            },
    {
        let prompt_tokens = match resp.prompt_eval_count {
            Some(n) => n,
            None => 0,
        };
        let completion_tokens = match resp.eval_count {
            Some(n) => n,
            None => 0,
        };
        if prompt_tokens > u64::MAX - completion_tokens {
            None
        } else {
            Some(Self::try_from(resp))
        }
    }
}

/// A completion request as Ollama takes it.
#[derive(Clone, Debug, PartialEq)]
pub struct OlRequest {
    pub model: String,
    pub messages: Vec<OlMessage>,
    /// Written among the options.
    pub temperature: Option<Temperature>,
    /// Merged into the options after the temperature.
    pub additional_params: Option<serde_json::Value>,
    /// Whether the answer is to be streamed.
    pub stream: bool,
    /// The tools the model may call; none is written where this is empty.
    pub tools: Vec<OlToolDefinition>,
}

/// The model of `OlRequest`: its mathematical view.
pub struct OlRequestView {
    pub model: Seq<char>,
    pub messages: Seq<OlMessageView>,
    pub temperature: Option<Temperature>,
    pub additional_params: Option<serde_json::Value>,
    pub stream: bool,
    pub tools: Seq<OlToolDefinitionView>,
}

impl View for OlRequest {
    type V = OlRequestView;

    open spec fn view(&self) -> OlRequestView {
        OlRequestView {
            model: self.model@,
            messages: self.messages.deep_view(),
            temperature: self.temperature,
            additional_params: self.additional_params,
            stream: self.stream,
            tools: self.tools.deep_view(),
        }
    }
}

impl OlRequestView {
    /// The encoding of one message, as a function.
    pub open spec fn encoding() -> spec_fn(MessageView) -> Seq<OlMessageView> {
        |message: MessageView| OlMessageView::encoded(message)
    }

    /// The system message for the preamble, if there is a preamble.
    pub open spec fn preamble_messages(preamble: Option<Seq<char>>) -> Seq<OlMessageView> {
        match preamble {
            Some(text) => seq![OlMessageView::System { content: text, images: None, name: None }],
            None => Seq::empty(),
        }
    }

    /// The messages of a request: the preamble, then what the context
    /// documents encode to, then what the chat history encodes to.
    pub open spec fn messages_of(request: CompletionRequestView) -> Seq<OlMessageView> {
        Self::preamble_messages(request.preamble) + flat_map(
            request.ordered_history(),
            Self::encoding(),
        )
    }

    /// The request that Ollama is sent for a unified request to `model`. The
    /// tool choice of the unified request is not sent: Ollama has none.
    pub open spec fn of(model: Seq<char>, request: CompletionRequestView) -> OlRequestView {
        OlRequestView {
            model,
            messages: Self::messages_of(request),
            temperature: request.temperature,
            additional_params: request.additional_params,
            stream: false,
            tools: request.tools.map_values(OlToolDefinitionView::of_fn()),
        }
    }
}

/// Encodes a unified request for Ollama. Every request can be encoded.
pub fn create_completion_request(model: String, completion_request: CompletionRequest) -> (r:
    Result<OlRequest, CompletionError>)
    ensures
        r is Ok,
        r->Ok_0@ == OlRequestView::of(model@, completion_request@),
{
    let ghost request = completion_request@;
    let documents = completion_request.normalized_documents();
    let CompletionRequest {
        preamble,
        chat_history,
        documents: _,
        tools,
        temperature,
        max_tokens: _,
        tool_choice: _,
        additional_params,
    } = completion_request;

    let mut full_history: Vec<OlMessage> = Vec::new();
    match preamble {
        Some(text) => {
            full_history.push(OlMessage::system(text.as_str()));
        },
        None => {},
    }
    let ghost head = full_history.deep_view();
    assert(head == OlRequestView::preamble_messages(request.preamble));
    let ghost ordered = request.ordered_history();
    let ghost lead: int = if documents is Some { 1 } else { 0 };
    match documents {
        Some(message) => {
            proof {
                lemma_flat_map_step(ordered, OlRequestView::encoding(), 0);
                assert(ordered.take(0) =~= Seq::<MessageView>::empty());
            }
            match RigMessage(message).try_into() {
                Ok(mut encoded) => {
                    full_history.append(&mut encoded);
                },
                Err(error) => {
                    return Err(CompletionError::from(error));
                },
            }
        },
        None => {},
    }
    assert(full_history.deep_view() == head + flat_map(
        ordered.take(lead),
        OlRequestView::encoding(),
    ));
    for message in it: chat_history
        invariant
            views(it.seq()) == request.chat_history,
            ordered == request.ordered_history(),
            ordered.len() == lead + request.chat_history.len(),
            ordered.skip(lead) == request.chat_history,
            lead == 0 || lead == 1,
            full_history.deep_view() == head + flat_map(
                ordered.take(lead + it.index()),
                OlRequestView::encoding(),
            ),
    {
        proof {
            lemma_flat_map_step(ordered, OlRequestView::encoding(), lead + it.index());
            assert(ordered[lead + it.index()] == ordered.skip(lead)[it.index() as int]);
        }
        match RigMessage(message).try_into() {
            Ok(mut encoded) => {
                full_history.append(&mut encoded);
            },
            Err(error) => {
                return Err(CompletionError::from(error));
            },
        }
    }
    proof {
        assert(ordered.take(ordered.len() as int) =~= ordered);
    }

    let ghost tool_views = views(tools@);
    let mut definitions: Vec<OlToolDefinition> = Vec::new();
    for tool in it: tools
        invariant
            views(it.seq()) == tool_views,
            definitions.deep_view() == tool_views.take(it.index() as int).map_values(
                OlToolDefinitionView::of_fn(),
            ),
    {
        proof {
            let f = OlToolDefinitionView::of_fn();
            let i = it.index() as int;
            assert(tool_views.take(i + 1).map_values(f) =~= tool_views.take(i).map_values(
                f,
            ).push(f(tool_views[i])));
        }
        definitions.push(OlToolDefinition::from(tool));
    }
    proof {
        assert(tool_views.take(tool_views.len() as int) =~= tool_views);
    }
    Ok(
        OlRequest {
            model,
            messages: full_history,
            temperature,
            additional_params,
            stream: false,
            tools: definitions,
        },
    )
}

/// The ordering invariant: in the messages of a request with documents, the
/// preamble comes first, then all that the context documents encode to,
/// then all that the chat history encodes to, so every message that stems
/// from a document stands before every message that stems from the history.
pub proof fn law_documents_precede_history(request: CompletionRequestView)
    requires
        request.documents.len() > 0,
    ensures
        request.normalized_documents() is Some,
        OlRequestView::messages_of(request) == OlRequestView::preamble_messages(request.preamble)
            + OlMessageView::encoded(request.normalized_documents()->0) + flat_map(
            request.chat_history,
            OlRequestView::encoding(),
        ),
{
    crate::completion::law_documents_precede_history(request, OlRequestView::encoding());
    let head = OlRequestView::preamble_messages(request.preamble);
    let documents = OlMessageView::encoded(request.normalized_documents()->0);
    let history = flat_map(request.chat_history, OlRequestView::encoding());
    assert(head + (documents + history) =~= head + documents + history);
}

} // verus!
