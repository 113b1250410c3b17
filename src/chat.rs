//! The conversation kept for the generation backend: role-tagged messages
//! whose content is plain text or a list of blocks (text, tool call, tool
//! result), and the backend's reply.

use vstd::prelude::*;
use vstd::string::*;
use crate::form::ToolInput;

verus! {

/// A JSON value, carried through unread (the input of a tool call).
#[verifier::external_type_specification]
#[verifier::external_body]
pub struct ExValue(serde_json::Value);

/// One block of a message's content.
pub enum ContentBlock {
    Text { text: String },
    /// A tool call: its id, the tool's name, its raw input, and that input read
    /// as a form request when it has that shape.
    ToolUse { id: String, name: String, input: serde_json::Value, request: Option<ToolInput> },
    ToolResult { tool_use_id: String, content: String },
}

/// A message's content: plain text, or blocks.
pub enum Content {
    Text(String),
    Blocks(Vec<ContentBlock>),
}

/// One message of the conversation.
pub struct Message {
    pub role: String,
    pub content: Content,
}

/// A tool call of a reply.
pub struct ToolUse {
    pub id: String,
    pub name: String,
    pub input: serde_json::Value,
    pub request: Option<ToolInput>,
}

/// The generation backend's reply: its text blocks joined, its tool calls in
/// order, and why it stopped.
pub struct SendResult {
    pub text: String,
    pub tool_uses: Vec<ToolUse>,
    pub stop_reason: String,
}

pub struct ToolInputView {
    pub field: Seq<char>,
    pub action: Seq<char>,
    pub value: Seq<char>,
}

pub enum BlockView {
    Text(Seq<char>),
    ToolUse(Seq<char>, Seq<char>, serde_json::Value, Option<ToolInputView>),
    ToolResult(Seq<char>, Seq<char>),
}

pub enum ContentView {
    Text(Seq<char>),
    Blocks(Seq<BlockView>),
}

pub struct MessageView {
    pub role: Seq<char>,
    pub content: ContentView,
}

pub struct ToolUseView {
    pub id: Seq<char>,
    pub name: Seq<char>,
    pub input: serde_json::Value,
    pub request: Option<ToolInputView>,
}

impl ToolInput {
    pub open spec fn view(&self) -> ToolInputView {
        ToolInputView { field: self.field@, action: self.action@, value: self.value@ }
    }
}

/// The view of an optional form request.
pub open spec fn request_view(r: Option<ToolInput>) -> Option<ToolInputView> {
    match r {
        Some(t) => Some(t.view()),
        None => None,
    }
}

impl ContentBlock {
    pub open spec fn view(&self) -> BlockView {
        match self {
            ContentBlock::Text { text } => BlockView::Text(text@),
            ContentBlock::ToolUse { id, name, input, request } => BlockView::ToolUse(
                id@,
                name@,
                *input,
                request_view(*request),
            ),
            ContentBlock::ToolResult { tool_use_id, content } => BlockView::ToolResult(
                tool_use_id@,
                content@,
            ),
        }
    }
}

/// The views of a list of blocks.
pub open spec fn blocks_view(b: Seq<ContentBlock>) -> Seq<BlockView> {
    b.map_values(|c: ContentBlock| c.view())
}

impl Content {
    pub open spec fn view(&self) -> ContentView {
        match self {
            Content::Text(t) => ContentView::Text(t@),
            Content::Blocks(b) => ContentView::Blocks(blocks_view(b@)),
        }
    }
}

impl Message {
    pub open spec fn view(&self) -> MessageView {
        MessageView { role: self.role@, content: self.content.view() }
    }
}

impl ToolUse {
    pub open spec fn view(&self) -> ToolUseView {
        ToolUseView { id: self.id@, name: self.name@, input: self.input, request: request_view(self.request) }
    }
}

/// The views of a list of messages.
pub open spec fn messages_view(m: Seq<Message>) -> Seq<MessageView> {
    m.map_values(|x: Message| x.view())
}

/// The views of a list of tool calls.
pub open spec fn tool_uses_view(t: Seq<ToolUse>) -> Seq<ToolUseView> {
    t.map_values(|x: ToolUse| x.view())
}

/// A user message of plain text.
pub open spec fn user_message(text: Seq<char>) -> MessageView {
    MessageView { role: "user"@, content: ContentView::Text(text) }
}

/// An assistant message of blocks.
pub open spec fn assistant_message(blocks: Seq<BlockView>) -> MessageView {
    MessageView { role: "assistant"@, content: ContentView::Blocks(blocks) }
}

/// The user message that answers a tool call.
pub open spec fn tool_result_message(id: Seq<char>, result: Seq<char>) -> MessageView {
    MessageView {
        role: "user"@,
        content: ContentView::Blocks(seq![BlockView::ToolResult(id, result)]),
    }
}

/// The text of the text blocks, joined in order.
pub open spec fn reply_text(blocks: Seq<BlockView>) -> Seq<char>
    decreases blocks.len(),
{
    if blocks.len() == 0 {
        Seq::empty()
    } else {
        let rest = reply_text(blocks.drop_last());
        match blocks.last() {
            BlockView::Text(t) => rest + t,
            _ => rest,
        }
    }
}

/// The tool calls among the blocks, in order.
pub open spec fn reply_tool_uses(blocks: Seq<BlockView>) -> Seq<ToolUseView>
    decreases blocks.len(),
{
    if blocks.len() == 0 {
        Seq::empty()
    } else {
        let rest = reply_tool_uses(blocks.drop_last());
        match blocks.last() {
            BlockView::ToolUse(id, name, input, request) => rest.push(
                ToolUseView { id, name, input, request },
            ),
            _ => rest,
        }
    }
}

impl Message {
    /// A user message of plain text.
    pub fn user(content: &str) -> (r: Message)
        ensures
            r.view() == user_message(content@),
    {
        Message { role: String::from_str("user"), content: Content::Text(String::from_str(content)) }
    }

    /// An assistant message of blocks.
    pub fn assistant_blocks(blocks: Vec<ContentBlock>) -> (r: Message)
        ensures
            r.view() == assistant_message(blocks_view(blocks@)),
    {
        Message { role: String::from_str("assistant"), content: Content::Blocks(blocks) }
    }

    /// The user message that answers the tool call `tool_use_id` with `result`.
    pub fn tool_result(tool_use_id: &str, result: &str) -> (r: Message)
        ensures
            r.view() == tool_result_message(tool_use_id@, result@),
    {
        let mut blocks: Vec<ContentBlock> = Vec::new();
        blocks.push(
            ContentBlock::ToolResult {
                tool_use_id: String::from_str(tool_use_id),
                content: String::from_str(result),
            },
        );
        let r = Message { role: String::from_str("user"), content: Content::Blocks(blocks) };
        assert(blocks_view(blocks@) =~= seq![BlockView::ToolResult(tool_use_id@, result@)]);
        r
    }
}

impl SendResult {
    /// Reads a reply of the generation backend: the text blocks joined in
    /// order, the tool calls in order, and the stop reason, `end_turn` when
    /// the reply gave none. Tool results in a reply are ignored.
    pub fn from_reply(content: Vec<ContentBlock>, stop_reason: Option<String>) -> (r: SendResult)
        ensures
            r.text@ == reply_text(blocks_view(content@)),
            tool_uses_view(r.tool_uses@) == reply_tool_uses(blocks_view(content@)),
            r.stop_reason@ == match stop_reason {
                Some(s) => s@,
                None => "end_turn"@,
            },
    {
        let ghost all = content@;
        let mut text = String::new();
        let mut tool_uses: Vec<ToolUse> = Vec::new();
        let mut rest = content;
        let mut i: usize = 0;
        let n = rest.len();
        proof {
            assert(rest@ =~= all.subrange(0, n as int));
        }
        while i < n
            invariant
                n == all.len(),
                i <= n,
                rest@ == all.subrange(i as int, n as int),
                text@ == reply_text(blocks_view(all.take(i as int))),
                tool_uses_view(tool_uses@) == reply_tool_uses(blocks_view(all.take(i as int))),
            decreases n - i,
        {
            let b = rest.remove(0);
            proof {
                assert(b == all[i as int]);
                assert(rest@ =~= all.subrange(i as int + 1, n as int));
                assert(blocks_view(all.take(i as int + 1)).drop_last() =~= blocks_view(
                    all.take(i as int),
                ));
                assert(blocks_view(all.take(i as int + 1)).last() == b.view());
            }
            match b {
                ContentBlock::Text { text: t } => {
                    text.append(t.as_str());
                },
                ContentBlock::ToolUse { id, name, input, request } => {
                    let tu = ToolUse { id, name, input, request };
                    tool_uses.push(tu);
                    proof {
                        assert(tool_uses_view(tool_uses@) =~= tool_uses_view(
                            tool_uses@.drop_last(),
                        ).push(tu.view()));
                    }
                },
                ContentBlock::ToolResult { .. } => {},
            }
            i = i + 1;
        }
        proof {
            assert(all.take(n as int) =~= all);
        }
        let stop = match stop_reason {
            Some(s) => s,
            None => String::from_str("end_turn"),
        };
        SendResult { text, tool_uses, stop_reason: stop }
    }
}

} // verus!
