use vstd::prelude::*;

use super::Event;
use crate::pattern::{group, group_spec};
use crate::state::{BotState, StateView};
use crate::text::owned;
use crate::types::response::{
    empty_response, with_discord, DiscordEventView, Response, ResponseView,
};

verus! {

/// The server finished starting.
pub struct ServerStart;

/// The text posted when the server has started, `time` being how long the
/// server says it took.
pub open spec fn start_text(time: Seq<char>) -> Seq<char> {
    ":sparkles: Server started ("@ + time + ")"@
}

/// The response to the server having started.
pub open spec fn start_response(time: Seq<char>) -> ResponseView {
    with_discord(
        with_discord(empty_response(), DiscordEventView::TextEvent(start_text(time))),
        DiscordEventView::RefreshData,
    )
}

impl Event for ServerStart {
    fn name(&self) -> (res: &'static str)
        ensures
            res@ == "server_start"@,
    {
        "server_start"
    }

    fn regex(&self) -> (res: &'static str)
        ensures
            res@ == r"\[.*\]: Done \((.*)\)!"@,
    {
        r"\[.*\]: Done \((.*)\)!"
    }
}

impl ServerStart {
    /// Marks the server as running, and announces it with the start time in
    /// group 1.
    pub fn execute(&self, state: &mut BotState, captures: &Vec<Option<String>>) -> (res: Response)
        requires
            group_spec(captures.deep_view(), 1) is Some,
        ensures
            final(state)@ == (StateView { players: old(state)@.players, server_on: true }),
            res@ == start_response(group_spec(captures.deep_view(), 1)->0),
    {
        let time = group(captures, 1).unwrap();
        state.server_on = true;
        let mut text = owned(":sparkles: Server started (");
        text.append(time.as_str());
        text.append(")");
        Response::new().discord_text(text.as_str()).discord_refresh_data()
    }
}

} // verus!
