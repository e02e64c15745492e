//! Conversions of response values into interaction responses.
use vstd::prelude::*;

use crate::server::into_response::{InteractionResponse, ResponseMessage};

verus! {

/// Values that convert into an interaction response.
pub trait IntoInteractionResponse {
    /// Convert this item into the appropriate `InteractionResponse` variant.
    fn into_interaction_response(self) -> InteractionResponse;
}

/// The response to a ping.
pub struct Pong;

impl IntoInteractionResponse for Pong {
    fn into_interaction_response(self) -> (r: InteractionResponse)
        ensures
            r is Pong,
    {
        InteractionResponse::Pong
    }
}

/// A response carrying a message.
pub struct Message(pub ResponseMessage);

impl IntoInteractionResponse for Message {
    fn into_interaction_response(self) -> (r: InteractionResponse)
        ensures
            r == InteractionResponse::Message(self.0),
    {
        InteractionResponse::Message(self.0)
    }
}

/// A response deferring the message.
pub struct Defer(pub ResponseMessage);

impl IntoInteractionResponse for Defer {
    fn into_interaction_response(self) -> (r: InteractionResponse)
        ensures
            r == InteractionResponse::Defer(self.0),
    {
        InteractionResponse::Defer(self.0)
    }
}

} // verus!
