use mcp_client::driver::{
    Action, ContentItem, Driver, Event, Message, ToolCall, ToolFailure, ToolResult,
};

fn text_item(s: &str) -> ContentItem {
    ContentItem::Text(s.to_string())
}

fn call_item(id: &str, name: &str, args: &str) -> ContentItem {
    ContentItem::Call(ToolCall {
        id: id.to_string(),
        name: name.to_string(),
        arguments: serde_json::from_str(args).unwrap(),
    })
}

fn assert_user_turn(m: &Message, expected: &str) {
    match m {
        Message::User(t) => assert_eq!(t, expected),
        _ => panic!("expected a user turn"),
    }
}

fn assert_tool_results(m: &Message, expected: &[(&str, &str)]) {
    match m {
        Message::ToolResults(rs) => {
            assert_eq!(rs.len(), expected.len());
            for (r, (id, payload)) in rs.iter().zip(expected.iter()) {
                let ToolResult { id: rid, payload: rpayload } = r;
                assert_eq!(rid, id);
                assert_eq!(rpayload, payload);
            }
        },
        _ => panic!("expected a tool-results turn"),
    }
}

fn assert_query_model(a: &Action, expected_with_tools: bool) {
    match a {
        Action::QueryModel(with_tools) => assert_eq!(*with_tools, expected_with_tools),
        _ => panic!("expected a model request"),
    }
}

fn assert_shown(a: &Action, expected: &str) {
    match a {
        Action::Show(s) => assert_eq!(s, expected),
        _ => panic!("expected text to be shown"),
    }
}

#[test]
fn nonempty_line_starts_cycle_with_trimmed_user_turn() {
    let mut d = Driver::new();
    let a = d.step(Event::Line("  What is 2+2  \n".to_string()));
    assert_query_model(&a, true);
    assert_eq!(d.history().len(), 1);
    assert_user_turn(&d.history()[0], "What is 2+2");
}

#[test]
fn empty_line_prompts_again_without_history() {
    let mut d = Driver::new();
    let a = d.step(Event::Line("   \n".to_string()));
    assert!(matches!(a, Action::Prompt));
    assert_eq!(d.history().len(), 0);
}

#[test]
fn quit_stops_in_any_ascii_case() {
    for line in ["quit", "QUIT", "Quit", "qUiT", "  quit  \n"] {
        let mut d = Driver::new();
        let a = d.step(Event::Line(line.to_string()));
        assert!(matches!(a, Action::Stop), "line {:?} should stop the loop", line);
        assert_eq!(d.history().len(), 0);
    }
}

#[test]
fn quit_with_extra_letters_is_a_query() {
    let mut d = Driver::new();
    let a = d.step(Event::Line("quitt".to_string()));
    assert_query_model(&a, true);
    assert_user_turn(&d.history()[0], "quitt");
}

#[test]
fn eof_stops_without_error() {
    let mut d = Driver::new();
    let a = d.step(Event::Eof);
    assert!(matches!(a, Action::Stop));
    assert_eq!(d.history().len(), 0);
}

#[test]
fn reply_without_tool_calls_is_shown_verbatim() {
    let mut d = Driver::new();
    let a = d.step(Event::Line("What is 2+2".to_string()));
    assert_query_model(&a, true);
    let a = d.step(Event::ModelReply(vec![text_item("2+2 is 4.")]));
    assert_shown(&a, "2+2 is 4.");
    // no tool-result turn was appended: only the user turn is in history
    assert_eq!(d.history().len(), 1);
    assert_user_turn(&d.history()[0], "What is 2+2");
}

#[test]
fn reply_with_empty_content_shows_empty_text() {
    let mut d = Driver::new();
    d.step(Event::Line("hello".to_string()));
    let a = d.step(Event::ModelReply(vec![]));
    assert_shown(&a, "");
    assert_eq!(d.history().len(), 1);
}

#[test]
fn tool_call_is_dispatched_with_name_and_arguments() {
    let mut d = Driver::new();
    d.step(Event::Line("add 2 and 3".to_string()));
    let a = d.step(Event::ModelReply(vec![call_item("call-1", "add", "{\"a\":2,\"b\":3}")]));
    match a {
        Action::InvokeTool(name, args) => {
            assert_eq!(name, "add");
            let expected: serde_json::Value = serde_json::from_str("{\"a\":2,\"b\":3}").unwrap();
            assert_eq!(args, expected);
        },
        _ => panic!("expected a tool invocation"),
    }
}

#[test]
fn tool_result_payload_reaches_the_tool_result_turn() {
    let mut d = Driver::new();
    d.step(Event::Line("add 2 and 3".to_string()));
    let a = d.step(Event::ModelReply(vec![
        text_item("Let me add those."),
        call_item("call-1", "add", "{\"a\":2,\"b\":3}"),
    ]));
    assert!(matches!(a, Action::InvokeTool(_, _)));
    let a = d.step(Event::ToolReply("{\"result\":5}".to_string()));
    // exactly one second model request, without the tool list
    assert_query_model(&a, false);
    let a = d.step(Event::ModelReply(vec![text_item("The sum is 5.")]));
    assert_shown(
        &a,
        "Let me add those.\n[Calling tool add with args {\"a\":2,\"b\":3}]\nThe sum is 5.",
    );
    // history: user turn, assistant turn, one combined tool-result turn
    assert_eq!(d.history().len(), 3);
    assert_user_turn(&d.history()[0], "add 2 and 3");
    match &d.history()[1] {
        Message::Assistant(items) => assert_eq!(items.len(), 2),
        _ => panic!("expected an assistant turn"),
    }
    assert_tool_results(&d.history()[2], &[("call-1", "{\"result\":5}")]);
}

#[test]
fn two_tool_calls_run_in_order_with_one_combined_turn() {
    let mut d = Driver::new();
    d.step(Event::Line("add then sub".to_string()));
    let a = d.step(Event::ModelReply(vec![
        call_item("c1", "add", "{\"a\":1}"),
        call_item("c2", "sub", "{\"b\":2}"),
    ]));
    match a {
        Action::InvokeTool(name, _) => assert_eq!(name, "add"),
        _ => panic!("expected the first invocation"),
    }
    let a = d.step(Event::ToolReply("r1".to_string()));
    match a {
        Action::InvokeTool(name, _) => assert_eq!(name, "sub"),
        _ => panic!("expected the second invocation"),
    }
    let a = d.step(Event::ToolReply("r2".to_string()));
    assert_query_model(&a, false);
    assert_eq!(d.history().len(), 3);
    assert_tool_results(&d.history()[2], &[("c1", "r1"), ("c2", "r2")]);
}

#[test]
fn tool_failure_aborts_batch_and_is_reported() {
    let mut d = Driver::new();
    d.step(Event::Line("add then sub".to_string()));
    d.step(Event::ModelReply(vec![
        call_item("c1", "add", "{\"a\":1}"),
        call_item("c2", "sub", "{\"b\":2}"),
        call_item("c3", "mul", "{\"c\":3}"),
    ]));
    d.step(Event::ToolReply("r1".to_string()));
    let a = d.step(Event::ToolFailed(ToolFailure::Execution));
    assert_shown(&a, "Error: Tool call sub failed");
    // the assistant turn and the completed result are kept; no second reply
    assert_eq!(d.history().len(), 3);
    assert_tool_results(&d.history()[2], &[("c1", "r1")]);
    // the loop goes on: the next line starts a fresh cycle
    let a = d.step(Event::Line("again".to_string()));
    assert_query_model(&a, true);
    assert_eq!(d.history().len(), 4);
}

#[test]
fn serialization_failure_is_reported() {
    let mut d = Driver::new();
    d.step(Event::Line("add".to_string()));
    d.step(Event::ModelReply(vec![call_item("c1", "add", "{}")]));
    let a = d.step(Event::ToolFailed(ToolFailure::Serialization));
    assert_shown(&a, "Error: Failed to serialize tool result");
    assert_tool_results(&d.history()[2], &[]);
}

#[test]
fn model_failure_keeps_user_turn_and_reports() {
    let mut d = Driver::new();
    d.step(Event::Line("hello".to_string()));
    let a = d.step(Event::ModelFailed("Anthropic chat request failed".to_string()));
    assert_shown(&a, "Error: Anthropic chat request failed");
    // the retained-context policy: the user turn stays
    assert_eq!(d.history().len(), 1);
    assert_user_turn(&d.history()[0], "hello");
    let a = d.step(Event::Line("next".to_string()));
    assert_query_model(&a, true);
    assert_eq!(d.history().len(), 2);
}

#[test]
fn history_is_retained_across_query_cycles() {
    let mut d = Driver::new();
    d.step(Event::Line("first".to_string()));
    d.step(Event::ModelReply(vec![text_item("one")]));
    d.step(Event::Line("second".to_string()));
    // the next request carries both user turns as context
    assert_eq!(d.history().len(), 2);
    assert_user_turn(&d.history()[0], "first");
    assert_user_turn(&d.history()[1], "second");
}

#[test]
fn second_reply_tool_calls_are_not_processed() {
    let mut d = Driver::new();
    d.step(Event::Line("add".to_string()));
    d.step(Event::ModelReply(vec![call_item("c1", "add", "{\"a\":1}")]));
    d.step(Event::ToolReply("r1".to_string()));
    // the follow-up response asks for another tool; only its text is used
    let a = d.step(Event::ModelReply(vec![
        text_item("done"),
        call_item("c9", "add", "{\"a\":9}"),
    ]));
    assert_shown(&a, "[Calling tool add with args {\"a\":1}]\ndone");
    assert_eq!(d.history().len(), 3);
}
