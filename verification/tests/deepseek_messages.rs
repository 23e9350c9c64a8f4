use benben::completion::{
    CompletionError, CompletionRequest, CompletionResponse, Document, Temperature, ToolChoice,
    ToolDefinition, Usage,
};
use benben::deepseek::completion::{DsCompletionModel, DEEPSEEK_CHAT};
use benben::deepseek::message::{DsMessage, RigMessage};
use benben::deepseek::rsp_req::{
    create_completion_request, Choice, DsCompletionResponse, DsUsage,
};
use benben::deepseek::tool::{
    DsFunction, DsToolCall, DsToolChoice, DsToolDefinition, DsToolType, ToolChoiceFunctionKind,
};
use benben::message::{
    AssistantContent, DocumentContent, DocumentMediaType, DocumentSourceKind, Message,
    MessageError, Reasoning, ToolCall, ToolFunction, ToolResult, ToolResultContent, UserContent,
};
use benben::one_or_many::OneOrMany;

fn json(text: &str) -> serde_json::Value {
    serde_json::from_str(text).unwrap()
}

fn user(text: &str) -> DsMessage {
    DsMessage::User { content: text.to_string(), name: None }
}

fn call(id: &str, name: &str, arguments: &str) -> ToolCall {
    ToolCall {
        id: id.to_string(),
        call_id: None,
        function: ToolFunction { name: name.to_string(), arguments: json(arguments) },
    }
}

fn document(data: DocumentSourceKind) -> UserContent {
    UserContent::Document(DocumentContent { data, media_type: Some(DocumentMediaType::TXT) })
}

fn request() -> CompletionRequest {
    CompletionRequest {
        preamble: None,
        chat_history: vec![],
        documents: vec![],
        tools: vec![],
        temperature: None,
        max_tokens: None,
        tool_choice: None,
        additional_params: None,
    }
}

#[test]
fn user_message_gives_tool_results_before_texts() {
    let content = OneOrMany::many(vec![
        UserContent::Text("first".to_string()),
        UserContent::ToolResult(ToolResult {
            id: "t1".to_string(),
            call_id: None,
            content: OneOrMany::many(vec![
                ToolResultContent::Text("42".to_string()),
                ToolResultContent::Text("ignored".to_string()),
            ])
            .unwrap(),
        }),
        document(DocumentSourceKind::Base64("QUJD".to_string())),
        document(DocumentSourceKind::Url("http://x".to_string())),
        document(DocumentSourceKind::Raw(vec![1, 2])),
        document(DocumentSourceKind::Unknown),
        UserContent::ToolResult(ToolResult {
            id: "t2".to_string(),
            call_id: Some("c".to_string()),
            content: OneOrMany::one(ToolResultContent::Image("png".to_string())),
        }),
        document(DocumentSourceKind::Text("inline".to_string())),
    ])
    .unwrap();
    let messages = RigMessage(Message::User { content }).try_into().unwrap();
    assert_eq!(
        messages,
        vec![
            DsMessage::ToolResult { tool_call_id: "t1".to_string(), content: "42".to_string() },
            DsMessage::ToolResult {
                tool_call_id: "t2".to_string(),
                content: "[Image]".to_string()
            },
            user("first"),
            user("QUJD"),
            user("inline"),
        ]
    );
}

#[test]
fn assistant_message_gives_texts_then_one_message_of_calls() {
    let content = OneOrMany::many(vec![
        AssistantContent::ToolCall(call("1", "f", "{}")),
        AssistantContent::Text("a".to_string()),
        AssistantContent::Reasoning(Reasoning { id: None, reasoning: vec!["why".to_string()] }),
        AssistantContent::ToolCall(call("2", "g", "[1]")),
        AssistantContent::Text("b".to_string()),
    ])
    .unwrap();
    let messages =
        RigMessage(Message::Assistant { id: Some("m".to_string()), content }).try_into().unwrap();
    let text = |t: &str| DsMessage::Assistant {
        content: t.to_string(),
        name: None,
        tool_calls: vec![],
    };
    assert_eq!(
        messages,
        vec![
            text("a"),
            text("b"),
            DsMessage::Assistant {
                content: String::new(),
                name: None,
                tool_calls: vec![
                    DsToolCall {
                        id: "1".to_string(),
                        index: 0,
                        kind: DsToolType::Function,
                        function: DsFunction { name: "f".to_string(), arguments: json("{}") },
                    },
                    DsToolCall {
                        id: "2".to_string(),
                        index: 0,
                        kind: DsToolType::Function,
                        function: DsFunction { name: "g".to_string(), arguments: json("[1]") },
                    },
                ],
            },
        ]
    );

    let only_text = RigMessage(Message::assistant("hi")).try_into().unwrap();
    assert_eq!(only_text, vec![text("hi")]);
}

#[test]
fn small_conversions() {
    assert_eq!(
        DsMessage::system("be kind"),
        DsMessage::System { content: "be kind".to_string(), name: None }
    );
    let tool = ToolDefinition {
        name: "add".to_string(),
        description: "adds".to_string(),
        parameters: json("{\"type\":\"object\"}"),
    };
    assert_eq!(
        DsToolDefinition::from(tool.clone()),
        DsToolDefinition { kind: "function".to_string(), function: tool }
    );
    assert_eq!(DsToolChoice::try_from(ToolChoice::Auto), Ok(DsToolChoice::Auto));
    assert_eq!(DsToolChoice::try_from(ToolChoice::Disabled), Ok(DsToolChoice::Disabled));
    assert_eq!(DsToolChoice::try_from(ToolChoice::Required), Ok(DsToolChoice::Required));
    assert_eq!(
        DsToolChoice::try_from(ToolChoice::Specific {
            function_names: vec!["a".to_string(), "b".to_string()]
        }),
        Ok(DsToolChoice::Function(vec![
            ToolChoiceFunctionKind::Function { name: "a".to_string() },
            ToolChoiceFunctionKind::Function { name: "b".to_string() },
        ]))
    );
    assert_eq!(
        DsUsage::new(),
        DsUsage {
            completion_tokens: 0,
            prompt_tokens: 0,
            prompt_cache_hit_tokens: 0,
            prompt_cache_miss_tokens: 0,
            total_tokens: 0,
            completion_tokens_details: None,
            prompt_tokens_details: None,
        }
    );
}

#[test]
fn documents_are_rendered_and_come_before_the_history() {
    let mut req = request();
    req.preamble = Some("system".to_string());
    req.documents = vec![
        Document::new("d1".to_string(), "one".to_string()),
        Document::new("d2".to_string(), "two".to_string()),
    ];
    req.chat_history = vec![Message::user("question"), Message::assistant("answer"), Message::user("again")];
    req.temperature = Some(Temperature { bits: 0 });
    req.tool_choice = Some(ToolChoice::Required);
    req.additional_params = Some(json("{\"top_p\":1}"));

    let docs = req.normalized_documents().unwrap();
    assert_eq!(
        docs,
        Message::User {
            content: OneOrMany::many(vec![
                document(DocumentSourceKind::Text("<file id: d1>\none\n</file>\n".to_string())),
                document(DocumentSourceKind::Text("<file id: d2>\ntwo\n</file>\n".to_string())),
            ])
            .unwrap()
        }
    );

    let encoded = create_completion_request("deepseek-chat".to_string(), req).unwrap();
    assert_eq!(encoded.model, "deepseek-chat");
    assert_eq!(
        encoded.messages,
        vec![
            DsMessage::system("system"),
            user("<file id: d1>\none\n</file>\n"),
            user("<file id: d2>\ntwo\n</file>\n"),
            user("question"),
            DsMessage::Assistant { content: "answer".to_string(), name: None, tool_calls: vec![] },
            user("again"),
        ]
    );
    assert_eq!(encoded.temperature, Some(Temperature { bits: 0 }));
    assert!(encoded.tools.is_empty());
    assert_eq!(encoded.tool_choice, None);
    assert_eq!(encoded.additional_params, Some(json("{\"top_p\":1}")));
}

#[test]
fn tools_bring_the_tool_choice_along() {
    let tool = ToolDefinition {
        name: "add".to_string(),
        description: "adds".to_string(),
        parameters: json("{}"),
    };
    let mut req = request();
    req.chat_history = vec![Message::user("2+2")];
    req.tools = vec![tool.clone()];
    req.tool_choice = Some(ToolChoice::Specific { function_names: vec!["add".to_string()] });
    let model = DsCompletionModel { client: (), model: DEEPSEEK_CHAT.to_string() };
    let encoded = model.create_completion_request(req).unwrap();
    assert_eq!(encoded.model, "deepseek-chat");
    assert_eq!(encoded.messages, vec![user("2+2")]);
    assert_eq!(
        encoded.tools,
        vec![DsToolDefinition { kind: "function".to_string(), function: tool }]
    );
    assert_eq!(
        encoded.tool_choice,
        Some(DsToolChoice::Function(vec![ToolChoiceFunctionKind::Function {
            name: "add".to_string()
        }]))
    );

    let mut none = request();
    assert_eq!(none.normalized_documents(), None);
    none.chat_history = vec![];
    let empty = create_completion_request("m".to_string(), none).unwrap();
    assert!(empty.messages.is_empty());
}

fn response(message: DsMessage) -> DsCompletionResponse {
    DsCompletionResponse {
        choices: vec![Choice {
            index: 0,
            message,
            logprobs: None,
            finish_reason: "stop".to_string(),
        }],
        usage: DsUsage {
            prompt_tokens: 11,
            completion_tokens: 5,
            total_tokens: 16,
            ..DsUsage::new()
        },
    }
}

#[test]
fn whole_response_is_decoded_text_first() {
    let wire_call = DsToolCall {
        id: "c1".to_string(),
        index: 4,
        kind: DsToolType::Function,
        function: DsFunction { name: "f".to_string(), arguments: json("{\"a\":[1]}") },
    };
    let raw = response(DsMessage::Assistant {
        content: "hello".to_string(),
        name: None,
        tool_calls: vec![wire_call.clone()],
    });
    let decoded = CompletionResponse::<DsCompletionResponse>::try_from(raw.clone()).unwrap();
    assert_eq!(
        decoded.choice.into_vec(),
        vec![
            AssistantContent::Text("hello".to_string()),
            AssistantContent::ToolCall(call("c1", "f", "{\"a\":[1]}")),
        ]
    );
    assert_eq!(decoded.usage, Usage { input_tokens: 11, output_tokens: 5, total_tokens: 16 });
    assert_eq!(decoded.raw_response, raw);
    assert_eq!(wire_call.decode(), call("c1", "f", "{\"a\":[1]}"));

    let blank = response(DsMessage::Assistant {
        content: " \n ".to_string(),
        name: None,
        tool_calls: vec![wire_call],
    });
    let decoded = CompletionResponse::<DsCompletionResponse>::try_from(blank).unwrap();
    assert_eq!(
        decoded.choice.into_vec(),
        vec![AssistantContent::ToolCall(call("c1", "f", "{\"a\":[1]}"))]
    );
}

#[test]
fn unusable_responses_are_errors() {
    let no_choice = DsCompletionResponse { choices: vec![], usage: DsUsage::new() };
    assert_eq!(
        CompletionResponse::<DsCompletionResponse>::try_from(no_choice).unwrap_err(),
        CompletionError::ResponseError("Response contained no choices".to_string())
    );
    for message in [
        user("u"),
        DsMessage::system("s"),
        DsMessage::ToolResult { tool_call_id: "t".to_string(), content: "c".to_string() },
    ] {
        assert_eq!(
            CompletionResponse::<DsCompletionResponse>::try_from(response(message)).unwrap_err(),
            CompletionError::ResponseError(
                "Response did not contain a valid message or tool call".to_string()
            )
        );
    }
    let empty =
        response(DsMessage::Assistant { content: "  ".to_string(), name: None, tool_calls: vec![] });
    assert_eq!(
        CompletionResponse::<DsCompletionResponse>::try_from(empty).unwrap_err(),
        CompletionError::ResponseError(
            "Response contained no message or tool call (empty)".to_string()
        )
    );
}

#[test]
fn a_message_that_cannot_be_encoded_is_a_request_error() {
    assert_eq!(
        CompletionError::from(MessageError::ConversionError("no".to_string())),
        CompletionError::RequestError("no".to_string())
    );
}

#[test]
fn document_properties_are_shown_before_the_text() {
    let plain = Document::new("d".to_string(), "body".to_string());
    assert!(plain.additional_props.is_empty());
    assert_eq!(plain.render(), "<file id: d>\nbody\n</file>\n");
    assert_eq!(plain.duplicate(), plain);

    let tagged = Document {
        id: "d".to_string(),
        text: "body".to_string(),
        additional_props: vec![
            ("author".to_string(), "A \"B\"".to_string()),
            ("year".to_string(), "2024".to_string()),
        ],
    };
    assert_eq!(
        tagged.render(),
        "<file id: d>\n<metadata author: \"A \\\"B\\\"\" year: \"2024\" />\nbody\n</file>\n"
    );
    assert_eq!(tagged.duplicate(), tagged);
}
