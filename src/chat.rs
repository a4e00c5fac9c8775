//! What the inference gateway decides: the conversation it sends and the text
//! it hands back. The call to the model service itself is awaited elsewhere.
use vstd::prelude::*;
use crate::turn::{ConversationTurn, TurnView, turn_views};

verus! {

/// The directive that opens every conversation sent for inference.
pub const SYSTEM_PROMPT: &'static str =
    "You are a helpful assistant. Answer user questions clearly and concisely.";

/// The model that every conversation is sent to; it is fixed at build time.
pub const MODEL: &'static str = "llama3.1:8b";

/// A conversation opened by the fixed directive, followed by the given turns.
pub open spec fn with_directive(turns: Seq<TurnView>) -> Seq<TurnView> {
    seq![TurnView::System(SYSTEM_PROMPT@)] + turns
}

/// Prepends the fixed system directive to a conversation.
///
/// The directive is added even when the turns already hold a system turn.
pub fn with_system_prompt(turns: Vec<ConversationTurn>) -> (conversation: Vec<
    ConversationTurn,
>)
    ensures
        turn_views(conversation@) == with_directive(turn_views(turns@)),
{
    let mut conversation: Vec<ConversationTurn> = Vec::new();
    conversation.push(ConversationTurn::System { content: String::from_str(SYSTEM_PROMPT) });
    let mut rest = turns;
    conversation.append(&mut rest);
    assert(turn_views(conversation@) =~= with_directive(turn_views(turns@)));
    conversation
}

/// The conversation sent for inference is one turn longer than the one given,
/// opens with the fixed directive and then holds the given turns unchanged.
pub proof fn lemma_directive_prepended(turns: Seq<TurnView>)
    ensures
        with_directive(turns).len() == turns.len() + 1,
        with_directive(turns)[0] == TurnView::System(SYSTEM_PROMPT@),
        with_directive(turns).drop_first() == turns,
{
    assert(with_directive(turns).drop_first() =~= turns);
}

/// The text handed back for a reply whose content may be absent.
pub open spec fn reply_of(content: Option<Seq<char>>) -> Seq<char> {
    match content {
        Some(text) => text,
        None => Seq::empty(),
    }
}

/// The text of a model reply: its content, or the empty text where it has none.
pub fn reply_text(content: Option<String>) -> (text: String)
    ensures
        text@ == reply_of(
            match content {
                Some(c) => Some(c@),
                None => None,
            },
        ),
{
    match content {
        Some(text) => text,
        None => String::new(),
    }
}

} // verus!
