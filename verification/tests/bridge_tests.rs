use mcp_client::bridge::{Bridge, BridgeError};
use mcp_client::tools::{ChatTool, ToolDescriptor, convert_tools};

fn descriptor(name: &str, description: Option<&str>, schema: &str) -> ToolDescriptor {
    ToolDescriptor {
        name: name.to_string(),
        description: description.map(|d| d.to_string()),
        input_schema: serde_json::from_str(schema).unwrap(),
    }
}

#[test]
fn connect_twice_fails_and_keeps_the_session() {
    let mut b = Bridge::new();
    assert!(b.begin_connect().is_ok());
    b.finish_connect(&vec![descriptor("add", Some("adds"), "{\"type\":\"object\"}")]);
    assert!(b.check_ready().is_ok());
    // a second attempt is refused and the tool list is untouched
    match b.begin_connect() {
        Err(BridgeError::AlreadyConnected) => {},
        _ => panic!("a second connect must be refused"),
    }
    assert!(b.check_ready().is_ok());
    assert_eq!(b.tools().len(), 1);
    assert_eq!(b.tools()[0].name, "add");
}

#[test]
fn connect_while_connecting_fails() {
    let mut b = Bridge::new();
    assert!(b.begin_connect().is_ok());
    match b.begin_connect() {
        Err(BridgeError::AlreadyConnected) => {},
        _ => panic!("a concurrent connect must be refused"),
    }
}

#[test]
fn failed_connect_allows_a_retry() {
    let mut b = Bridge::new();
    assert!(b.begin_connect().is_ok());
    b.connect_failed();
    assert!(b.check_ready().is_err());
    assert!(b.begin_connect().is_ok());
}

#[test]
fn not_connected_is_reported_before_a_query() {
    let b = Bridge::new();
    match b.check_ready() {
        Err(BridgeError::NotConnected) => {},
        _ => panic!("a query without a session must be refused"),
    }
}

#[test]
fn disconnect_returns_to_disconnected() {
    let mut b = Bridge::new();
    assert!(b.begin_connect().is_ok());
    b.finish_connect(&vec![]);
    b.disconnect();
    assert!(b.check_ready().is_err());
    assert!(b.begin_connect().is_ok());
}

#[test]
fn error_messages_match_the_client_wording() {
    assert_eq!(BridgeError::AlreadyConnected.message(), "Client is already connected to a server");
    assert_eq!(BridgeError::NotConnected.message(), "Client is not connected to any server");
}

#[test]
fn convert_tools_carries_fields_verbatim() {
    let schema_a = "{\"type\":\"object\",\"properties\":{\"a\":{\"type\":\"number\"}}}";
    let descriptors = vec![
        descriptor("add", Some("adds two numbers"), schema_a),
        descriptor("noop", None, "{}"),
    ];
    let tools = convert_tools(&descriptors);
    assert_eq!(tools.len(), 2);
    let ChatTool { name, description, schema } = &tools[0];
    assert_eq!(name, "add");
    assert_eq!(description.as_deref(), Some("adds two numbers"));
    let expected: serde_json::Value = serde_json::from_str(schema_a).unwrap();
    assert_eq!(schema.as_ref(), Some(&expected));
    assert_eq!(tools[1].name, "noop");
    assert!(tools[1].description.is_none());
    let empty: serde_json::Value = serde_json::from_str("{}").unwrap();
    assert_eq!(tools[1].schema.as_ref(), Some(&empty));
}

#[test]
fn convert_tools_of_nothing_is_empty() {
    let tools = convert_tools(&vec![]);
    assert!(tools.is_empty());
}

#[test]
fn tool_names_lists_names_in_order() {
    let descriptors = vec![
        descriptor("add", None, "{}"),
        descriptor("sub", Some("subtracts"), "{}"),
    ];
    assert_eq!(mcp_client::tools::tool_names(&descriptors), vec!["add", "sub"]);
    assert!(mcp_client::tools::tool_names(&vec![]).is_empty());
}
