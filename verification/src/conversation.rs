//! The fixed preamble that opens every conversation with the assistant.

use vstd::prelude::*;

verus! {

/// Who speaks in a message.
#[derive(Debug, Clone, Copy, PartialEq, Eq)]
pub enum Role {
    System,
    User,
    Assistant,
}

/// One message of a conversation.
#[derive(Debug, PartialEq, Eq)]
pub struct ChatMessage {
    pub role: Role,
    pub content: String,
}

/// What a `ChatMessage` holds, as mathematical values.
pub struct ChatMessageView {
    pub role: Role,
    pub content: Seq<char>,
}

impl DeepView for ChatMessage {
    type V = ChatMessageView;

    open spec fn deep_view(&self) -> ChatMessageView {
        ChatMessageView { role: self.role, content: self.content@ }
    }
}

impl View for ChatMessage {
    type V = ChatMessageView;

    open spec fn view(&self) -> ChatMessageView {
        self.deep_view()
    }
}

impl Clone for ChatMessage {
    /// A copy that owns its text and holds the same values.
    fn clone(&self) -> (copy: ChatMessage)
        ensures
            copy@ == self@,
    {
        ChatMessage { role: self.role, content: self.content.clone() }
    }
}

/// The persona that the assistant is given before anything the caller says.
pub const SYSTEM_PROMPT: &'static str =
    "Eres un asistente especializado en Turismo 3.0. Ayuda a los usuarios a descubrir tours auténticos, gestionar reservas seguras y comprender la economía local descentralizada mediante blockchain, tokens y verificaciones on-chain. Responde de forma clara, precisa y con ejemplos prácticos.";

/// The message that opens every conversation: the persona, in the system role.
pub open spec fn preamble() -> ChatMessageView {
    ChatMessageView { role: Role::System, content: SYSTEM_PROMPT@ }
}

/// A conversation with the preamble put before it.
pub open spec fn with_preamble(messages: Seq<ChatMessageView>) -> Seq<ChatMessageView> {
    seq![preamble()] + messages
}

/// Puts the preamble before the caller's messages. These follow unchanged and
/// in their order, system messages among them included: the preamble is added,
/// it replaces nothing.
pub fn build_conversation(messages: Vec<ChatMessage>) -> (conversation: Vec<ChatMessage>)
    ensures
        conversation.deep_view() == with_preamble(messages.deep_view()),
        conversation@.len() == messages@.len() + 1,
        conversation@[0]@ == preamble(),
        forall|i: int|
            0 <= i < messages@.len() ==> conversation@[i + 1] == #[trigger] messages@[i],
{
    let mut conversation = messages;
    let system_message = ChatMessage { role: Role::System, content: SYSTEM_PROMPT.to_string() };
    conversation.insert(0, system_message);
    conversation
}

} // verus!
