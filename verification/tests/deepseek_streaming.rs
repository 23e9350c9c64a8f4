use benben::completion::{CompletionError, CompletionResponse, Usage};
use benben::deepseek::message::DsMessage;
use benben::deepseek::rsp_req::{Choice, DsCompletionResponse, DsUsage};
use benben::deepseek::streaming::{
    is_payload, reconstruct, DsStream, DsStreamingCompletionResponse, FragmentKind,
    StreamingChoice, StreamingCompletionChunk, StreamingDelta, StreamingFunction,
    StreamingToolCall, Transport,
};
use benben::deepseek::tool::{DsFunction, DsToolCall, DsToolType};
use benben::message::{AssistantContent, ToolCall, ToolFunction};
use benben::streaming::{aggregate, StreamingEvent};

fn json(text: &str) -> serde_json::Value {
    serde_json::from_str(text).unwrap()
}

fn fragment(index: usize, id: Option<&str>, name: Option<&str>, arguments: &str) -> StreamingToolCall {
    StreamingToolCall {
        index,
        id: id.map(|s| s.to_string()),
        function: StreamingFunction {
            name: name.map(|s| s.to_string()),
            arguments: arguments.to_string(),
        },
    }
}

fn chunk(
    content: Option<&str>,
    tool_calls: Vec<StreamingToolCall>,
    reasoning: Option<&str>,
    usage: Option<DsUsage>,
) -> StreamingCompletionChunk {
    StreamingCompletionChunk {
        choices: vec![StreamingChoice {
            delta: StreamingDelta {
                content: content.map(|s| s.to_string()),
                tool_calls,
                reasoning_content: reasoning.map(|s| s.to_string()),
            },
        }],
        usage,
    }
}

fn message(c: StreamingCompletionChunk) -> Transport {
    Transport::Message { data: "{}".to_string(), chunk: Some(c) }
}

fn usage(total: u32) -> DsUsage {
    DsUsage { prompt_tokens: 1, completion_tokens: total - 1, total_tokens: total, ..DsUsage::new() }
}

fn final_event(u: DsUsage) -> StreamingEvent<DsStreamingCompletionResponse> {
    StreamingEvent::FinalResponse(DsStreamingCompletionResponse { usage: u })
}

#[test]
fn fragments_are_classified() {
    assert_eq!(fragment(0, None, Some("f"), "").kind(), FragmentKind::Start);
    assert_eq!(fragment(0, None, None, "{").kind(), FragmentKind::Continuation);
    assert_eq!(fragment(0, None, Some(""), "{").kind(), FragmentKind::Continuation);
    assert_eq!(fragment(0, None, Some("f"), "{}").kind(), FragmentKind::Complete);
    assert_eq!(fragment(0, None, None, "").kind(), FragmentKind::Complete);
    assert_eq!(fragment(0, None, Some(""), "").kind(), FragmentKind::Complete);
}

#[test]
fn fragments_are_put_together() {
    let inputs = vec![
        Transport::Opened,
        message(chunk(None, vec![fragment(0, Some("call-1"), Some("f"), "")], None, None)),
        message(chunk(None, vec![fragment(0, None, None, "{\"x\":")], None, None)),
        message(chunk(None, vec![fragment(0, None, None, "1}")], None, None)),
        Transport::Ended,
    ];
    let (items, audit) = reconstruct(inputs);
    assert_eq!(
        items,
        vec![
            Ok(StreamingEvent::ToolCall {
                id: "call-1".to_string(),
                name: "f".to_string(),
                arguments: json("{\"x\":1}"),
                call_id: None,
            }),
            Ok(final_event(DsUsage::new())),
        ]
    );
    assert_eq!(
        audit,
        DsMessage::Assistant {
            content: String::new(),
            name: None,
            tool_calls: vec![DsToolCall {
                id: "call-1".to_string(),
                index: 0,
                kind: DsToolType::Function,
                function: DsFunction { name: "f".to_string(), arguments: json("{\"x\":1}") },
            }],
        }
    );
    let (choice, response) = aggregate(items);
    assert_eq!(
        choice.into_vec(),
        vec![AssistantContent::ToolCall(ToolCall {
            id: "call-1".to_string(),
            call_id: None,
            function: ToolFunction { name: "f".to_string(), arguments: json("{\"x\":1}") },
        })]
    );
    assert_eq!(response, Some(DsStreamingCompletionResponse { usage: DsUsage::new() }));
}

#[test]
fn continuation_without_start_is_dropped() {
    let inputs = vec![
        message(chunk(None, vec![fragment(3, None, None, "{\"lost\":true}")], None, None)),
        message(chunk(Some("still "), vec![], None, None)),
        message(chunk(None, vec![fragment(1, Some("a"), Some("g"), "")], None, None)),
        message(chunk(Some("here"), vec![fragment(1, None, None, "[1,2]")], None, Some(usage(9)))),
        Transport::Ended,
    ];
    let (items, audit) = reconstruct(inputs);
    assert_eq!(
        items,
        vec![
            Ok(StreamingEvent::Message("still ".to_string())),
            Ok(StreamingEvent::Message("here".to_string())),
            Ok(StreamingEvent::ToolCall {
                id: "a".to_string(),
                name: "g".to_string(),
                arguments: json("[1,2]"),
                call_id: None,
            }),
            Ok(final_event(usage(9))),
        ]
    );
    match audit {
        DsMessage::Assistant { content, tool_calls, .. } => {
            assert_eq!(content, "still here");
            assert_eq!(tool_calls.len(), 1);
            assert_eq!(tool_calls[0].index, 1);
        }
        other => panic!("not an assistant message: {:?}", other),
    }
}

#[test]
fn streamed_and_whole_answers_agree() {
    let inputs = vec![
        message(chunk(
            Some("The answer"),
            vec![fragment(0, Some("id-7"), Some("subtract"), "{\"x\":2,\"y\":5}")],
            None,
            Some(usage(30)),
        )),
        Transport::Ended,
    ];
    let (items, _) = reconstruct(inputs);
    assert_eq!(items.len(), 3);
    let (streamed, last) = aggregate(items);

    let whole = DsCompletionResponse {
        choices: vec![Choice {
            index: 0,
            message: DsMessage::Assistant {
                content: "The answer".to_string(),
                name: None,
                tool_calls: vec![DsToolCall {
                    id: "id-7".to_string(),
                    index: 0,
                    kind: DsToolType::Function,
                    function: DsFunction {
                        name: "subtract".to_string(),
                        arguments: json("{\"x\":2,\"y\":5}"),
                    },
                }],
            },
            logprobs: None,
            finish_reason: "tool_calls".to_string(),
        }],
        usage: usage(30),
    };
    let decoded = CompletionResponse::<DsCompletionResponse>::try_from(whole).unwrap();
    assert_eq!(streamed, decoded.choice);
    assert_eq!(
        streamed.into_vec(),
        vec![
            AssistantContent::Text("The answer".to_string()),
            AssistantContent::ToolCall(ToolCall {
                id: "id-7".to_string(),
                call_id: None,
                function: ToolFunction {
                    name: "subtract".to_string(),
                    arguments: json("{\"x\":2,\"y\":5}"),
                },
            }),
        ]
    );
    assert_eq!(last.unwrap().token_usage(), Some(decoded.usage));
    assert_eq!(decoded.usage, Usage { input_tokens: 1, output_tokens: 29, total_tokens: 30 });
}

#[test]
fn events_of_one_chunk_come_in_order() {
    let mut stream = DsStream::new();
    let events = stream.on_chunk(chunk(
        Some("text"),
        vec![
            fragment(0, None, Some("whole"), "{}"),
            fragment(1, None, Some("broken"), "{not json"),
            fragment(2, Some("i"), None, "null"),
        ],
        Some("thinking"),
        None,
    ));
    assert_eq!(
        events,
        vec![
            StreamingEvent::ToolCall {
                id: String::new(),
                name: "whole".to_string(),
                arguments: json("{}"),
                call_id: None,
            },
            StreamingEvent::Reasoning { id: None, reasoning: "thinking".to_string() },
            StreamingEvent::Message("text".to_string()),
        ]
    );
    let (rest, audit) = stream.finish();
    assert_eq!(rest, vec![final_event(DsUsage::new())]);
    assert_eq!(
        audit,
        DsMessage::Assistant { content: "text".to_string(), name: None, tool_calls: vec![] }
    );
}

#[test]
fn buffers_are_flushed_by_index_and_bad_arguments_are_dropped() {
    let mut stream = DsStream::new();
    for (index, name) in [(5usize, "five"), (0, "zero"), (usize::MAX, "last"), (2, "two")] {
        let events =
            stream.on_chunk(chunk(None, vec![fragment(index, Some(name), Some(name), "")], None, None));
        assert!(events.is_empty());
    }
    for (index, arguments) in [(0usize, "1"), (2, "{oops"), (5, "\"s\""), (usize::MAX, "[]")] {
        stream.on_chunk(chunk(None, vec![fragment(index, None, None, arguments)], None, None));
    }
    let (events, audit) = stream.finish();
    let names: Vec<String> = events
        .iter()
        .filter_map(|e| match e {
            StreamingEvent::ToolCall { name, .. } => Some(name.clone()),
            _ => None,
        })
        .collect();
    assert_eq!(names, vec!["zero".to_string(), "five".to_string(), "last".to_string()]);
    assert_eq!(events.len(), 4);
    assert_eq!(events[3], final_event(DsUsage::new()));
    match audit {
        DsMessage::Assistant { tool_calls, .. } => {
            let indexes: Vec<usize> = tool_calls.iter().map(|c| c.index).collect();
            assert_eq!(indexes, vec![0, 5, usize::MAX]);
            assert_eq!(tool_calls[1].function.arguments, json("\"s\""));
        }
        other => panic!("not an assistant message: {:?}", other),
    }
}

#[test]
fn a_start_replaces_an_open_buffer() {
    let mut stream = DsStream::new();
    stream.on_chunk(chunk(None, vec![fragment(0, Some("a"), Some("old"), "")], None, None));
    stream.on_chunk(chunk(None, vec![fragment(0, None, None, "1")], None, None));
    stream.on_chunk(chunk(None, vec![fragment(0, Some("b"), Some("new"), "")], None, None));
    stream.on_chunk(chunk(None, vec![fragment(0, None, None, "2")], None, None));
    let (events, _) = stream.finish();
    assert_eq!(
        events[0],
        StreamingEvent::ToolCall {
            id: "b".to_string(),
            name: "new".to_string(),
            arguments: json("2"),
            call_id: None,
        }
    );
}

#[test]
fn only_the_first_choice_counts_and_the_last_usage_is_kept() {
    let mut two = chunk(Some("first"), vec![], None, Some(usage(3)));
    two.choices.push(StreamingChoice {
        delta: StreamingDelta {
            content: Some("second".to_string()),
            tool_calls: vec![],
            reasoning_content: None,
        },
    });
    let no_choice = StreamingCompletionChunk { choices: vec![], usage: Some(usage(8)) };
    let inputs = vec![message(two), message(no_choice), message(chunk(None, vec![], None, None))];
    let (items, _) = reconstruct(inputs);
    assert_eq!(
        items,
        vec![Ok(StreamingEvent::Message("first".to_string())), Ok(final_event(usage(8)))]
    );
}

#[test]
fn payloads_and_markers() {
    assert!(is_payload("{\"choices\":[]}"));
    assert!(!is_payload(""));
    assert!(!is_payload("  \n"));
    assert!(!is_payload("[DONE]"));
    assert!(is_payload(" [DONE]"));
    assert!(is_payload("[DONE] "));

    let skipped = vec![
        Transport::Message { data: "[DONE]".to_string(), chunk: Some(chunk(Some("no"), vec![], None, None)) },
        Transport::Message { data: "   ".to_string(), chunk: Some(chunk(Some("no"), vec![], None, None)) },
        Transport::Message { data: "garbage".to_string(), chunk: None },
        message(chunk(Some("yes"), vec![], None, None)),
    ];
    let (items, _) = reconstruct(skipped);
    assert_eq!(
        items,
        vec![Ok(StreamingEvent::Message("yes".to_string())), Ok(final_event(DsUsage::new()))]
    );
}

#[test]
fn a_failed_connection_ends_the_stream_with_an_error() {
    let inputs = vec![
        message(chunk(Some("a"), vec![fragment(0, None, Some("f"), "")], None, None)),
        message(chunk(None, vec![fragment(0, None, None, "7")], None, None)),
        Transport::Failed("connection reset".to_string()),
        message(chunk(Some("never"), vec![], None, None)),
    ];
    let (items, audit) = reconstruct(inputs);
    assert_eq!(
        items,
        vec![
            Ok(StreamingEvent::Message("a".to_string())),
            Err(CompletionError::ResponseError("connection reset".to_string())),
            Ok(StreamingEvent::ToolCall {
                id: String::new(),
                name: "f".to_string(),
                arguments: json("7"),
                call_id: None,
            }),
            Ok(final_event(DsUsage::new())),
        ]
    );
    match audit {
        DsMessage::Assistant { content, .. } => assert_eq!(content, "a"),
        other => panic!("not an assistant message: {:?}", other),
    }
}

#[test]
fn steps_say_when_the_stream_ends() {
    let mut stream = DsStream::new();
    let step = stream.on_transport(Transport::Opened);
    assert!(step.items.is_empty() && !step.ended);
    let step = stream.on_transport(message(chunk(Some("x"), vec![], None, None)));
    assert_eq!(step.items, vec![Ok(StreamingEvent::Message("x".to_string()))]);
    assert!(!step.ended);
    let step = stream.on_transport(Transport::Ended);
    assert!(step.items.is_empty() && step.ended);
    let (items, _) = stream.finish_items();
    assert_eq!(items, vec![Ok(final_event(DsUsage::new()))]);
}

#[test]
fn an_empty_stream_gives_one_empty_text() {
    let (items, audit) = reconstruct(vec![]);
    assert_eq!(items, vec![Ok(final_event(DsUsage::new()))]);
    assert_eq!(
        audit,
        DsMessage::Assistant { content: String::new(), name: None, tool_calls: vec![] }
    );
    let (choice, _) = aggregate(items);
    assert_eq!(choice.into_vec(), vec![AssistantContent::Text(String::new())]);
}
