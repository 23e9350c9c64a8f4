use benben::agent::{render_tool_output, AgentBuilder, ToolOutput, UNKNOWN_AGENT_NAME};
use benben::completion::{CompletionRequest, Document, Temperature, ToolDefinition};
use benben::message::Message;
use benben::one_or_many::{EmptyListError, OneOrMany};
use benben::workflow::TaskVo;

fn json(text: &str) -> serde_json::Value {
    serde_json::from_str(text).unwrap()
}

#[test]
fn builder_sets_what_it_is_told() {
    let agent = AgentBuilder::<&str, ()>::new("model")
        .name("a")
        .description("d")
        .preamble("one")
        .append_preamble("two")
        .context("first document")
        .context("second document")
        .temperature(Temperature { bits: 0x3FE999999999999A })
        .max_tokens(1024)
        .additional_params(json("{\"foo\":\"bar\"}"))
        .build();
    assert_eq!(agent.name(), "a");
    assert_eq!(agent.description, Some("d".to_string()));
    assert_eq!(agent.preamble, Some("one\ntwo".to_string()));
    assert_eq!(
        agent.static_context,
        vec![
            Document::new("static_doc_0".to_string(), "first document".to_string()),
            Document::new("static_doc_1".to_string(), "second document".to_string()),
        ]
    );
    assert!(agent.static_tools.is_empty());
    assert_eq!(agent.temperature, Some(Temperature { bits: 0 }));
    assert_eq!(agent.max_tokens, Some(1024));
    assert_eq!(agent.additional_params, Some(json("{\"foo\":\"bar\"}")));
    assert_eq!(*agent.model, "model");
    assert!(agent.mcp_client.is_none());
}

#[test]
fn preamble_can_be_dropped_and_appended_to_nothing() {
    let agent = AgentBuilder::<(), ()>::new(()).preamble("x").without_preamble().build();
    assert_eq!(agent.preamble, None);
    assert_eq!(agent.name(), UNKNOWN_AGENT_NAME);
    let agent = AgentBuilder::<(), ()>::new(()).append_preamble("line").build();
    assert_eq!(agent.preamble, Some("\nline".to_string()));
}

#[test]
fn request_carries_all_that_the_agent_has() {
    let agent = AgentBuilder::<(), ()>::new(())
        .preamble("p")
        .context("doc")
        .max_tokens(7)
        .temperature(Temperature { bits: 1 })
        .additional_params(json("[1]"))
        .build();
    let tool = ToolDefinition {
        name: "t".to_string(),
        description: "d".to_string(),
        parameters: json("{}"),
    };
    let request = agent.completion(
        Message::user("now"),
        vec![Message::user("before"), Message::assistant("reply")],
        vec![tool.clone()],
    );
    assert_eq!(
        request,
        CompletionRequest {
            preamble: Some("p".to_string()),
            chat_history: vec![
                Message::user("before"),
                Message::assistant("reply"),
                Message::user("now")
            ],
            documents: vec![Document::new("static_doc_0".to_string(), "doc".to_string())],
            tools: vec![tool],
            temperature: Some(Temperature { bits: 0 }),
            max_tokens: Some(7),
            tool_choice: None,
            additional_params: Some(json("[1]")),
        }
    );
}

#[test]
fn tool_output_is_one_text() {
    let parts = vec![
        ToolOutput::Text("plain".to_string()),
        ToolOutput::Image { mime_type: "image/png".to_string() },
        ToolOutput::TextResource("resource".to_string()),
        ToolOutput::BlobResource,
        ToolOutput::Audio,
        ToolOutput::ResourceLink,
    ];
    let expected = "plain\n[Image: image/png]\nresource\n[Binary Resource]\n[Audio]\n[Resource Link]";
    assert_eq!(render_tool_output(parts.clone()), expected);
    assert_eq!(render_tool_output(vec![]), "");

    let with_channel = AgentBuilder::<(), u8>::new(()).mcp_client(1).build();
    assert_eq!(with_channel.call_result(Some(parts.clone())), expected);
    assert_eq!(with_channel.call_result(None), "");
    let without = AgentBuilder::<(), u8>::new(()).build();
    assert_eq!(without.call_result(Some(parts)), "");
}

#[test]
fn one_or_many_is_never_empty() {
    assert_eq!(OneOrMany::<u8>::many(vec![]), Err(EmptyListError));
    let mut list = OneOrMany::many(vec![1, 2, 3]).unwrap();
    assert_eq!(*list.first(), 1);
    list.push(4);
    assert_eq!(list.clone().into_vec(), vec![1, 2, 3, 4]);
    assert_eq!(OneOrMany::one(9).into_vec(), vec![9]);
}

#[test]
fn task_vo_holds_input_and_workflow() {
    let task = TaskVo { input: "hello".to_string(), workflowid: "wf".to_string() };
    assert_eq!(task.clone(), task);
}
