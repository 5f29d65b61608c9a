//! The minimal bot actor: it answers a ping with a pong.

use vstd::prelude::*;
use crate::text::concat2;

verus! {

/// What the bot actor is sent.
pub enum BotAction {
    Ping { message: String },
}

/// The bot's answer to an action: `Pong: {message}` for a ping.
pub open spec fn bot_reply(message: Seq<char>) -> Seq<char> {
    "Pong: "@ + message
}

/// What the bot answers to `action`.
pub fn bot_transition(action: &BotAction) -> (r: String)
    ensures
        match action {
            BotAction::Ping { message } => r@ == bot_reply(message@),
        },
{
    match action {
        BotAction::Ping { message } => concat2("Pong: ", message.as_str()),
    }
}

} // verus!
