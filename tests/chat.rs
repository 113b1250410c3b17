use vui::chat::{Content, ContentBlock, Message, SendResult};

fn tool_block(id: &str) -> ContentBlock {
    ContentBlock::ToolUse {
        id: id.to_string(),
        name: "update_form".to_string(),
        input: serde_json::Value::Null,
        request: None,
    }
}

#[test]
fn reply_joins_text_and_keeps_tool_order() {
    let content = vec![
        ContentBlock::Text { text: "Hello, ".to_string() },
        tool_block("t1"),
        ContentBlock::ToolResult { tool_use_id: "x".to_string(), content: "y".to_string() },
        ContentBlock::Text { text: "world".to_string() },
        tool_block("t2"),
    ];
    let r = SendResult::from_reply(content, Some("tool_use".to_string()));
    assert_eq!(r.text, "Hello, world");
    assert_eq!(r.tool_uses.len(), 2);
    assert_eq!(r.tool_uses[0].id, "t1");
    assert_eq!(r.tool_uses[1].id, "t2");
    assert_eq!(r.stop_reason, "tool_use");
}

#[test]
fn reply_without_stop_reason_ends_turn() {
    let r = SendResult::from_reply(vec![], None);
    assert_eq!(r.text, "");
    assert!(r.tool_uses.is_empty());
    assert_eq!(r.stop_reason, "end_turn");
}

#[test]
fn message_constructors() {
    let u = Message::user("hi");
    assert_eq!(u.role, "user");
    assert!(matches!(u.content, Content::Text(ref t) if t == "hi"));
    let a = Message::assistant_blocks(vec![ContentBlock::Text { text: "ok".to_string() }]);
    assert_eq!(a.role, "assistant");
    assert!(matches!(a.content, Content::Blocks(ref b) if b.len() == 1));
    let t = Message::tool_result("id7", "done");
    assert_eq!(t.role, "user");
    match t.content {
        Content::Blocks(b) => match &b[0] {
            ContentBlock::ToolResult { tool_use_id, content } => {
                assert_eq!(tool_use_id, "id7");
                assert_eq!(content, "done");
            }
            _ => panic!("not a tool result"),
        },
        _ => panic!("not blocks"),
    }
}
