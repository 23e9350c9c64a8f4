use benben::completion::{
    CompletionError, CompletionRequest, CompletionResponse, Document, ToolChoice, ToolDefinition,
    Usage,
};
use benben::message::{
    AssistantContent, DocumentContent, DocumentSourceKind, Message, Reasoning, ToolCall,
    ToolFunction, ToolResult, ToolResultContent, UserContent,
};
use benben::ollama::completion::OllamaCompletionModel;
use benben::ollama::message::{OlMessage, RigMessage};
use benben::ollama::model;
use benben::ollama::rsp_req::{create_completion_request, OllamaCompletionResponse};
use benben::ollama::streaming::{
    reconstruct, split_lines, Line, OllamaStream, OllamaStreamingCompletionResponse, Transport,
};
use benben::ollama::tool::{Function, OlToolCall, OlToolDefinition, OlToolType};
use benben::one_or_many::OneOrMany;
use benben::streaming::{aggregate, StreamingEvent};

fn json(text: &str) -> serde_json::Value {
    serde_json::from_str(text).unwrap()
}

fn wire_call(name: &str, arguments: &str) -> OlToolCall {
    OlToolCall {
        kind: OlToolType::Function,
        function: Function { name: name.to_string(), arguments: json(arguments) },
    }
}

fn call(id: &str, name: &str, arguments: &str) -> ToolCall {
    ToolCall {
        id: id.to_string(),
        call_id: None,
        function: ToolFunction { name: name.to_string(), arguments: json(arguments) },
    }
}

fn assistant(content: &str, tool_calls: Vec<OlToolCall>) -> OlMessage {
    OlMessage::Assistant {
        content: content.to_string(),
        thinking: None,
        images: None,
        name: None,
        tool_calls,
    }
}

fn response(message: OlMessage, done: bool) -> OllamaCompletionResponse {
    OllamaCompletionResponse {
        model: "qwen3:4b".to_string(),
        created_at: "now".to_string(),
        message,
        done,
        done_reason: if done { Some("stop".to_string()) } else { None },
        total_duration: Some(100),
        load_duration: None,
        prompt_eval_count: Some(12),
        prompt_eval_duration: Some(3),
        eval_count: Some(30),
        eval_duration: Some(4),
    }
}

fn summary() -> OllamaStreamingCompletionResponse {
    OllamaStreamingCompletionResponse {
        done_reason: Some("stop".to_string()),
        total_duration: Some(100),
        load_duration: None,
        prompt_eval_count: Some(12),
        prompt_eval_duration: Some(3),
        eval_count: Some(30),
        eval_duration: Some(4),
    }
}

#[test]
fn user_message_with_tool_results_gives_only_them() {
    let content = OneOrMany::many(vec![
        UserContent::Text("dropped".to_string()),
        UserContent::ToolResult(ToolResult {
            id: "add".to_string(),
            call_id: None,
            content: OneOrMany::many(vec![
                ToolResultContent::Text("4".to_string()),
                ToolResultContent::Image("png".to_string()),
                ToolResultContent::Text("done".to_string()),
            ])
            .unwrap(),
        }),
    ])
    .unwrap();
    let messages = RigMessage(Message::User { content }).try_into().unwrap();
    assert_eq!(
        messages,
        vec![OlMessage::ToolResult {
            name: "add".to_string(),
            content: "4\n[Non-text content]\ndone".to_string(),
        }]
    );
}

#[test]
fn user_message_without_tool_results_joins_its_texts() {
    let content = OneOrMany::many(vec![
        UserContent::Text("a".to_string()),
        UserContent::Document(DocumentContent {
            data: DocumentSourceKind::Url("u".to_string()),
            media_type: None,
        }),
        UserContent::Document(DocumentContent {
            data: DocumentSourceKind::Text("doc".to_string()),
            media_type: None,
        }),
        UserContent::Document(DocumentContent {
            data: DocumentSourceKind::Base64("Yg==".to_string()),
            media_type: None,
        }),
    ])
    .unwrap();
    let messages = RigMessage(Message::User { content }).try_into().unwrap();
    assert_eq!(
        messages,
        vec![OlMessage::User { content: "a doc Yg==".to_string(), images: None, name: None }]
    );
}

#[test]
fn assistant_message_gives_one_message() {
    let content = OneOrMany::many(vec![
        AssistantContent::Reasoning(Reasoning { id: None, reasoning: vec!["first".to_string()] }),
        AssistantContent::Text("x".to_string()),
        AssistantContent::ToolCall(call("id", "f", "{\"k\":1}")),
        AssistantContent::Reasoning(Reasoning {
            id: None,
            reasoning: vec!["last".to_string(), "more".to_string()],
        }),
        AssistantContent::Text("y".to_string()),
    ])
    .unwrap();
    let messages = RigMessage(Message::Assistant { id: None, content }).try_into().unwrap();
    assert_eq!(
        messages,
        vec![OlMessage::Assistant {
            content: "x y".to_string(),
            thinking: Some("last".to_string()),
            images: None,
            name: None,
            tool_calls: vec![wire_call("f", "{\"k\":1}")],
        }]
    );

    let empty_reasoning = OneOrMany::one(AssistantContent::Reasoning(Reasoning {
        id: None,
        reasoning: vec![],
    }));
    let messages =
        RigMessage(Message::Assistant { id: None, content: empty_reasoning }).try_into().unwrap();
    assert_eq!(
        messages,
        vec![OlMessage::Assistant {
            content: String::new(),
            thinking: Some(String::new()),
            images: None,
            name: None,
            tool_calls: vec![],
        }]
    );
}

#[test]
fn wire_messages_are_decoded() {
    assert_eq!(
        Message::from(OlMessage::User {
            content: "u".to_string(),
            images: Some(vec!["i".to_string()]),
            name: None
        }),
        Message::user("u")
    );
    assert_eq!(Message::from(OlMessage::system("s")), Message::user("s"));
    assert_eq!(
        Message::from(assistant("", vec![wire_call("f", "1")])),
        Message::Assistant {
            id: None,
            content: OneOrMany::many(vec![
                AssistantContent::Text(String::new()),
                AssistantContent::ToolCall(call("f", "f", "1")),
            ])
            .unwrap(),
        }
    );
    assert_eq!(
        Message::from(OlMessage::ToolResult { name: "t".to_string(), content: "r".to_string() }),
        Message::User {
            content: OneOrMany::one(UserContent::ToolResult(ToolResult {
                id: "t".to_string(),
                call_id: None,
                content: OneOrMany::one(ToolResultContent::Text("r".to_string())),
            })),
        }
    );
}

#[test]
fn ollama_small_conversions() {
    let tool = ToolDefinition {
        name: "n".to_string(),
        description: "d".to_string(),
        parameters: json("{}"),
    };
    assert_eq!(
        OlToolDefinition::from(tool.clone()),
        OlToolDefinition { type_field: "function".to_string(), function: tool }
    );
    assert_eq!(OlToolCall::from(call("id", "f", "[]")), wire_call("f", "[]"));
    assert_eq!(wire_call("f", "[]").decode(), call("f", "f", "[]"));
    assert_eq!(
        OlMessage::system("s"),
        OlMessage::System { content: "s".to_string(), images: None, name: None }
    );
    assert_eq!(model::SystemContent::from("a".to_string()).text(), "a");
    assert_eq!(model::SystemContent::from_str("b").unwrap().text(), "b");
    assert_eq!(
        model::SystemContent::from_str("b").unwrap(),
        model::SystemContent::from("b".to_string())
    );
    assert_eq!(
        model::AssistantContent::from_str("c").unwrap(),
        model::AssistantContent { text: "c".to_string() }
    );
    assert_eq!(
        model::UserContent::from_str("d").unwrap(),
        model::UserContent::Text { text: "d".to_string() }
    );
}

#[test]
fn request_puts_documents_before_history_and_sends_no_tool_choice() {
    let tool = ToolDefinition {
        name: "n".to_string(),
        description: "d".to_string(),
        parameters: json("{}"),
    };
    let req = CompletionRequest {
        preamble: Some("p".to_string()),
        chat_history: vec![Message::user("q1"), Message::assistant("a1"), Message::user("q2")],
        documents: vec![Document::new("0".to_string(), "t".to_string())],
        tools: vec![tool.clone()],
        temperature: None,
        max_tokens: Some(5),
        tool_choice: Some(ToolChoice::Auto),
        additional_params: Some(json("{\"seed\":1}")),
    };
    let model = OllamaCompletionModel::new((), "llama3.2");
    let encoded = model.create_completion_request(req.clone()).unwrap();
    assert_eq!(encoded, create_completion_request("llama3.2".to_string(), req.clone()).unwrap());
    assert_eq!(encoded.model, "llama3.2");
    assert!(!encoded.stream);
    assert_eq!(
        encoded.messages,
        vec![
            OlMessage::system("p"),
            OlMessage::User {
                content: "<file id: 0>\nt\n</file>\n".to_string(),
                images: None,
                name: None
            },
            OlMessage::User { content: "q1".to_string(), images: None, name: None },
            assistant("a1", vec![]),
            OlMessage::User { content: "q2".to_string(), images: None, name: None },
        ]
    );
    assert_eq!(
        encoded.tools,
        vec![OlToolDefinition { type_field: "function".to_string(), function: tool }]
    );
    assert_eq!(encoded.additional_params, Some(json("{\"seed\":1}")));
    let streaming = model.create_streaming_request(req).unwrap();
    assert!(streaming.stream);
    assert_eq!(streaming.messages, encoded.messages);
}

#[test]
fn ollama_whole_response_is_decoded() {
    let mut raw = response(
        OlMessage::Assistant {
            content: "hi".to_string(),
            thinking: Some("hm".to_string()),
            images: Some(vec!["img".to_string()]),
            name: Some("bot".to_string()),
            tool_calls: vec![wire_call("f", "{}")],
        },
        true,
    );
    let decoded = CompletionResponse::<OllamaCompletionResponse>::try_from(raw.clone()).unwrap();
    assert_eq!(
        decoded.choice.into_vec(),
        vec![AssistantContent::Text("hi".to_string()), AssistantContent::ToolCall(call("f", "f", "{}"))]
    );
    assert_eq!(decoded.usage, Usage { input_tokens: 12, output_tokens: 30, total_tokens: 42 });
    raw.message = OlMessage::Assistant {
        content: "hi".to_string(),
        thinking: Some("hm".to_string()),
        images: None,
        name: None,
        tool_calls: vec![wire_call("f", "{}")],
    };
    assert_eq!(decoded.raw_response, raw);

    let mut blank = response(assistant(" ", vec![]), true);
    blank.prompt_eval_count = None;
    blank.eval_count = None;
    let decoded = CompletionResponse::<OllamaCompletionResponse>::try_from(blank).unwrap();
    assert_eq!(decoded.choice.into_vec(), vec![AssistantContent::Text(" ".to_string())]);
    assert_eq!(decoded.usage, Usage { input_tokens: 0, output_tokens: 0, total_tokens: 0 });
}

#[test]
fn ollama_unusable_responses_are_errors() {
    assert_eq!(
        CompletionResponse::<OllamaCompletionResponse>::try_from(response(
            assistant("", vec![]),
            true
        ))
        .unwrap_err(),
        CompletionError::ResponseError("No content provided".to_string())
    );
    assert_eq!(
        CompletionResponse::<OllamaCompletionResponse>::try_from(response(
            OlMessage::system("s"),
            true
        ))
        .unwrap_err(),
        CompletionError::ResponseError(
            "Chat response does not include an assistant message".to_string()
        )
    );
}

#[test]
fn counts_that_cannot_be_added_are_refused() {
    let mut huge = response(assistant("x", vec![]), true);
    huge.prompt_eval_count = Some(u64::MAX);
    huge.eval_count = Some(1);
    assert!(CompletionResponse::<OllamaCompletionResponse>::try_from_checked(huge.clone()).is_none());
    huge.eval_count = Some(0);
    let decoded =
        CompletionResponse::<OllamaCompletionResponse>::try_from_checked(huge).unwrap().unwrap();
    assert_eq!(decoded.usage.total_tokens, u64::MAX);
}

#[test]
fn lines_are_split_and_empty_ones_left_out() {
    assert_eq!(split_lines(b""), Vec::<Vec<u8>>::new());
    assert_eq!(split_lines(b"\n\n"), Vec::<Vec<u8>>::new());
    assert_eq!(split_lines(b"a"), vec![b"a".to_vec()]);
    assert_eq!(split_lines(b"{\"a\":1}\n\n{\"b\":2}\n"), vec![b"{\"a\":1}".to_vec(), b"{\"b\":2}".to_vec()]);
    assert_eq!(split_lines(b"\nx\ny"), vec![b"x".to_vec(), b"y".to_vec()]);
    for bytes in [&b"a\n\nbc\n"[..], &b"\n"[..], &b"abc"[..], &b"\r\n\r\n"[..]] {
        let expected: Vec<Vec<u8>> =
            bytes.split(|&b| b == b'\n').filter(|l| !l.is_empty()).map(|l| l.to_vec()).collect();
        assert_eq!(split_lines(bytes), expected);
    }
}

#[test]
fn stream_is_reconstructed() {
    let inputs = vec![
        Transport::Chunk(vec![
            Line::Response(response(assistant("Hel", vec![]), false)),
            Line::Response(response(assistant("", vec![]), false)),
            Line::Response(response(OlMessage::system("ignored"), false)),
        ]),
        Transport::Chunk(vec![]),
        Transport::Chunk(vec![
            Line::Response(response(assistant("lo", vec![wire_call("f", "{\"x\":1}"), wire_call("g", "2")]), false)),
            Line::Response(response(assistant("tail is not read", vec![]), true)),
            Line::Malformed("never looked at".to_string()),
        ]),
    ];
    let (items, audit) = reconstruct(inputs);
    let tool = |name: &str, arguments: &str| StreamingEvent::ToolCall {
        id: String::new(),
        name: name.to_string(),
        arguments: json(arguments),
        call_id: None,
    };
    assert_eq!(
        items,
        vec![
            Ok(StreamingEvent::Message("Hel".to_string())),
            Ok(StreamingEvent::Message("lo".to_string())),
            Ok(tool("f", "{\"x\":1}")),
            Ok(tool("g", "2")),
            Ok(StreamingEvent::FinalResponse(summary())),
        ]
    );
    assert_eq!(audit, assistant("Hello", vec![wire_call("f", "{\"x\":1}"), wire_call("g", "2")]));

    let (choice, last) = aggregate(items);
    assert_eq!(
        choice.into_vec(),
        vec![
            AssistantContent::Text("Hello".to_string()),
            AssistantContent::ToolCall(call("", "f", "{\"x\":1}")),
            AssistantContent::ToolCall(call("", "g", "2")),
        ]
    );
    assert_eq!(
        last.unwrap().token_usage(),
        Some(Usage { input_tokens: 12, output_tokens: 30, total_tokens: 42 })
    );
}

#[test]
fn a_malformed_line_is_skipped_and_the_stream_goes_on() {
    let inputs = vec![Transport::Chunk(vec![
        Line::Response(response(assistant("a", vec![]), false)),
        Line::Malformed("expected value at line 1".to_string()),
        Line::Response(response(assistant("b", vec![]), false)),
        Line::Response(response(assistant("", vec![]), true)),
    ])];
    let (items, audit) = reconstruct(inputs);
    assert_eq!(
        items,
        vec![
            Ok(StreamingEvent::Message("a".to_string())),
            Ok(StreamingEvent::Message("b".to_string())),
            Ok(StreamingEvent::FinalResponse(summary())),
        ]
    );
    assert_eq!(audit, assistant("ab", vec![]));

    let mut stream = OllamaStream::new();
    let step = stream.on_chunk(vec![
        Line::Malformed("first".to_string()),
        Line::Malformed("second".to_string()),
    ]);
    assert!(step.items.is_empty());
    assert!(!step.ended);
    assert_eq!(stream.audit_message(), assistant("", vec![]));
}

#[test]
fn nothing_follows_the_final_response() {
    let inputs = vec![
        Transport::Chunk(vec![Line::Response(response(assistant("a", vec![]), false))]),
        Transport::Chunk(vec![
            Line::Response(response(assistant("done text is not handed on", vec![]), true)),
            Line::Response(response(assistant("same chunk", vec![]), false)),
        ]),
        Transport::Chunk(vec![Line::Response(response(assistant("later chunk", vec![]), false))]),
        Transport::Chunk(vec![Line::Response(response(assistant("", vec![]), true))]),
        Transport::Failed("reset".to_string()),
    ];
    let (items, audit) = reconstruct(inputs);
    assert_eq!(
        items,
        vec![
            Ok(StreamingEvent::Message("a".to_string())),
            Ok(StreamingEvent::FinalResponse(summary())),
        ]
    );
    assert_eq!(audit, assistant("a", vec![]));

    let mut stream = OllamaStream::new();
    let step = stream.on_transport(Transport::Chunk(vec![Line::Response(response(
        assistant("x", vec![]),
        true,
    ))]));
    assert_eq!(step.items, vec![Ok(StreamingEvent::FinalResponse(summary()))]);
    assert!(step.ended);
}

#[test]
fn ollama_failed_connection_ends_the_stream_with_an_error() {
    let inputs = vec![
        Transport::Chunk(vec![Line::Response(response(assistant("a", vec![]), false))]),
        Transport::Failed("reset".to_string()),
        Transport::Chunk(vec![Line::Response(response(assistant("b", vec![]), true))]),
    ];
    let (items, audit) = reconstruct(inputs);
    assert_eq!(
        items,
        vec![
            Ok(StreamingEvent::Message("a".to_string())),
            Err(CompletionError::ResponseError("reset".to_string())),
        ]
    );
    assert_eq!(audit, assistant("a", vec![]));
}

#[test]
fn ollama_streamed_and_whole_answers_agree_on_text_and_calls() {
    let inputs = vec![Transport::Chunk(vec![
        Line::Response(response(assistant("The answer", vec![wire_call("subtract", "{\"x\":2,\"y\":5}")]), false)),
        Line::Response(response(assistant("", vec![]), true)),
    ])];
    let (items, _) = reconstruct(inputs);
    let (streamed, _) = aggregate(items);
    let whole = CompletionResponse::<OllamaCompletionResponse>::try_from(response(
        assistant("The answer", vec![wire_call("subtract", "{\"x\":2,\"y\":5}")]),
        true,
    ))
    .unwrap();
    let shape = |parts: Vec<AssistantContent>| -> Vec<(String, Option<serde_json::Value>)> {
        parts
            .into_iter()
            .map(|part| match part {
                AssistantContent::Text(text) => (text, None),
                AssistantContent::ToolCall(call) => (call.function.name, Some(call.function.arguments)),
                AssistantContent::Reasoning(_) => panic!("no reasoning is expected"),
            })
            .collect()
    };
    assert_eq!(shape(streamed.into_vec()), shape(whole.choice.into_vec()));
}
