//! Conversation turns and the mapping from raw wire messages onto them.
use vstd::prelude::*;

verus! {

/// A tool call requested by the model, carried through unread.
#[verifier::external_type_specification]
#[verifier::external_body]
pub struct ExToolCall(ic_llm::ToolCall);

/// One message of a conversation, tagged with its role.
///
/// Turns mapped from the wire carry no tool calls and an empty tool call
/// identifier: this adapter never asks for tools.
#[derive(Debug, Clone, PartialEq)]
#[allow(inconsistent_fields)]
pub enum ConversationTurn {
    System { content: String },
    User { content: String },
    Assistant { content: Option<String>, tool_calls: Vec<ic_llm::ToolCall> },
    Tool { content: String, tool_call_id: String },
}

/// The mathematical value of a `ConversationTurn`.
pub enum TurnView {
    System(Seq<char>),
    User(Seq<char>),
    Assistant(Option<Seq<char>>, Seq<ic_llm::ToolCall>),
    Tool(Seq<char>, Seq<char>),
}

impl View for ConversationTurn {
    type V = TurnView;

    open spec fn view(&self) -> TurnView {
        match self {
            ConversationTurn::System { content } => TurnView::System(content@),
            ConversationTurn::User { content } => TurnView::User(content@),
            ConversationTurn::Assistant { content, tool_calls } => TurnView::Assistant(
                match content {
                    Some(c) => Some(c@),
                    None => None,
                },
                tool_calls@,
            ),
            ConversationTurn::Tool { content, tool_call_id } => TurnView::Tool(
                content@,
                tool_call_id@,
            ),
        }
    }
}

/// The untyped wire form of a message: a free-text role and its content.
#[derive(Debug, Clone)]
pub struct IncomingMessage {
    pub role: String,
    pub content: String,
}

/// The decoded body of a chat request.
#[derive(Debug, Clone)]
pub struct IncomingPayload {
    pub messages: Vec<IncomingMessage>,
}

/// The turn that a raw message with this role and content becomes.
///
/// The role is matched exactly; every role other than `system`, `assistant`
/// and `tool` falls back to a user turn.
pub open spec fn turn_of(role: Seq<char>, content: Seq<char>) -> TurnView {
    if role == "system"@ {
        TurnView::System(content)
    } else if role == "assistant"@ {
        TurnView::Assistant(Some(content), Seq::empty())
    } else if role == "tool"@ {
        TurnView::Tool(content, Seq::empty())
    } else {
        TurnView::User(content)
    }
}

/// The views of a sequence of turns.
pub open spec fn turn_views(turns: Seq<ConversationTurn>) -> Seq<TurnView> {
    turns.map_values(|t: ConversationTurn| t@)
}

/// The turns that a sequence of raw messages becomes, one for one and in order.
pub open spec fn mapped_turns(messages: Seq<IncomingMessage>) -> Seq<TurnView> {
    messages.map_values(|m: IncomingMessage| turn_of(m.role@, m.content@))
}

/// Maps one raw message onto the turn for its role.
pub fn map_message(message: &IncomingMessage) -> (turn: ConversationTurn)
    ensures
        turn@ == turn_of(message.role@, message.content@),
{
    let content = message.content.clone();
    if message.role == String::from_str("system") {
        ConversationTurn::System { content }
    } else if message.role == String::from_str("assistant") {
        ConversationTurn::Assistant { content: Some(content), tool_calls: Vec::new() }
    } else if message.role == String::from_str("tool") {
        ConversationTurn::Tool { content, tool_call_id: String::new() }
    } else {
        ConversationTurn::User { content }
    }
}

/// Maps raw messages onto turns, one for one and in order.
pub fn map_messages(messages: &Vec<IncomingMessage>) -> (turns: Vec<ConversationTurn>)
    ensures
        turns@.len() == messages@.len(),
        turn_views(turns@) == mapped_turns(messages@),
{
    let mut turns: Vec<ConversationTurn> = Vec::new();
    let mut i: usize = 0;
    while i < messages.len()
        invariant
            i <= messages@.len(),
            turns@.len() == i,
            turn_views(turns@) == mapped_turns(messages@.subrange(0, i as int)),
        decreases messages@.len() - i,
    {
        let turn = map_message(&messages[i]);
        let ghost before = turns@;
        turns.push(turn);
        i = i + 1;
        assert forall|j: int| 0 <= j < i implies #[trigger] turn_views(turns@)[j] == mapped_turns(
            messages@.subrange(0, i as int),
        )[j] by {
            if j < i - 1 {
                assert(turns@[j] == before[j]);
                assert(turn_views(before)[j] == mapped_turns(
                    messages@.subrange(0, i - 1 as int),
                )[j]);
            }
        }
        assert(turn_views(turns@) =~= mapped_turns(messages@.subrange(0, i as int)));
    }
    assert(messages@.subrange(0, i as int) =~= messages@);
    turns
}

/// Mapping a payload's messages yields one turn per message, each the turn
/// for the message at the same position.
pub proof fn lemma_mapping_keeps_length_and_order(messages: Seq<IncomingMessage>)
    ensures
        mapped_turns(messages).len() == messages.len(),
        forall|i: int|
            0 <= i < messages.len() ==> #[trigger] mapped_turns(messages)[i] == turn_of(
                messages[i].role@,
                messages[i].content@,
            ),
{
}

/// Every role maps onto a turn: `system`, `assistant` and `tool` onto their
/// own variants, any other text, the empty one included, onto a user turn.
pub proof fn lemma_role_mapping_total(role: Seq<char>, content: Seq<char>)
    ensures
        role == "system"@ ==> turn_of(role, content) == TurnView::System(content),
        role == "assistant"@ ==> turn_of(role, content) == TurnView::Assistant(Some(content), Seq::empty()),
        role == "tool"@ ==> turn_of(role, content) == TurnView::Tool(content, Seq::empty()),
        role != "system"@ && role != "assistant"@ && role != "tool"@ ==> turn_of(role, content)
            == TurnView::User(content),
{
    reveal_strlit("system");
    reveal_strlit("assistant");
    reveal_strlit("tool");
    assert("system"@ != "assistant"@ && "system"@ != "tool"@) by {
        assert("system"@[0] != "assistant"@[0]);
        assert("system"@.len() != "tool"@.len());
    }
    assert("assistant"@ != "tool"@) by {
        assert("assistant"@.len() != "tool"@.len());
    }
}

/// Mapping the same messages twice yields the same turns: the mapping keeps
/// no state between calls.
pub proof fn lemma_mapping_repeatable(
    messages: Seq<IncomingMessage>,
    first: Seq<ConversationTurn>,
    second: Seq<ConversationTurn>,
)
    requires
        turn_views(first) == mapped_turns(messages),
        turn_views(second) == mapped_turns(messages),
    ensures
        turn_views(first) == turn_views(second),
{
}

} // verus!
