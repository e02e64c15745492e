//! The responses the server gives to interactions.
use vstd::prelude::*;

verus! {

/// The message part of an interaction response: whether only the invoking user sees it, and
/// its text.
pub struct ResponseMessage {
    pub ephemeral: bool,
    pub content: Option<String>,
}

impl ResponseMessage {
    /// An empty message, visible to everyone.
    pub fn new() -> (m: ResponseMessage)
        ensures
            !m.ephemeral,
            m.content is None,
    {
        ResponseMessage { ephemeral: false, content: None }
    }

    /// A message with text `content`, seen only by the invoking user when `ephemeral`.
    pub fn with_content(ephemeral: bool, content: &str) -> (m: ResponseMessage)
        ensures
            m.ephemeral == ephemeral,
            m.content matches Some(c) && c@ == content@,
    {
        ResponseMessage { ephemeral, content: Some(content.to_owned()) }
    }
}

/// A response to an interaction.
pub enum InteractionResponse {
    /// Acknowledges a ping.
    Pong,
    /// Responds with a message.
    Message(ResponseMessage),
    /// Acknowledges the interaction; the message follows later.
    Defer(ResponseMessage),
}

/// Values that can be sent back as the response to an interaction.
pub trait IntoResponse: Sized {
    /// Convert this item into the appropriate `InteractionResponse` variant.
    fn into_interaction(self) -> InteractionResponse;
}

/// The response to a ping.
pub struct Pong;

impl IntoResponse for Pong {
    fn into_interaction(self) -> (r: InteractionResponse)
        ensures
            r is Pong,
    {
        InteractionResponse::Pong
    }
}

/// A response carrying a message.
pub struct Message(pub ResponseMessage);

impl IntoResponse for Message {
    fn into_interaction(self) -> (r: InteractionResponse)
        ensures
            r == InteractionResponse::Message(self.0),
    {
        InteractionResponse::Message(self.0)
    }
}

/// A response deferring the message.
pub struct Defer(pub ResponseMessage);

impl IntoResponse for Defer {
    fn into_interaction(self) -> (r: InteractionResponse)
        ensures
            r == InteractionResponse::Defer(self.0),
    {
        InteractionResponse::Defer(self.0)
    }
}

/// A response that is either a message or a deferral.
pub enum Reply {
    Message(Message),
    Defer(Defer),
}

impl IntoResponse for Reply {
    fn into_interaction(self) -> (r: InteractionResponse)
        ensures
            match self {
                Reply::Message(m) => r == InteractionResponse::Message(m.0),
                Reply::Defer(d) => r == InteractionResponse::Defer(d.0),
            },
    {
        match self {
            Reply::Message(m) => m.into_interaction(),
            Reply::Defer(d) => d.into_interaction(),
        }
    }
}

} // verus!
