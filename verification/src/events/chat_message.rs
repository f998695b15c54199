use vstd::prelude::*;

use super::Event;
use crate::pattern::{group, group_spec};
use crate::text::owned;
use crate::types::response::{
    empty_response, with_discord, DiscordEventView, Response, ResponseView,
};

verus! {

/// A player wrote in the chat.
pub struct ChatMessage;

/// The text posted when `name` says `message`.
pub open spec fn chat_text(name: Seq<char>, message: Seq<char>) -> Seq<char> {
    ":speech_left: **"@ + name + "** » "@ + message
}

/// The response to `name` saying `message`.
pub open spec fn chat_response(name: Seq<char>, message: Seq<char>) -> ResponseView {
    with_discord(empty_response(), DiscordEventView::TextEvent(chat_text(name, message)))
}

impl Event for ChatMessage {
    fn name(&self) -> (res: &'static str)
        ensures
            res@ == "chat_message"@,
    {
        "chat_message"
    }

    fn regex(&self) -> (res: &'static str)
        ensures
            res@ == r"\[.*\]: <(.*)> (.*)"@,
    {
        r"\[.*\]: <(.*)> (.*)"
    }
}

impl ChatMessage {
    /// Relays the message of group 2, said by the player of group 1.
    pub fn execute(&self, captures: &Vec<Option<String>>) -> (res: Response)
        requires
            group_spec(captures.deep_view(), 1) is Some,
            group_spec(captures.deep_view(), 2) is Some,
        ensures
            res@ == chat_response(
                group_spec(captures.deep_view(), 1)->0,
                group_spec(captures.deep_view(), 2)->0,
            ),
    {
        let name = group(captures, 1).unwrap();
        let message = group(captures, 2).unwrap();
        let mut text = owned(":speech_left: **");
        text.append(name.as_str());
        text.append("** » ");
        text.append(message.as_str());
        Response::new().discord_text(text.as_str())
    }
}

} // verus!
