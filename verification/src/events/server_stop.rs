use vstd::prelude::*;

use super::InternalEvent;
use crate::state::{BotState, StateView};
use crate::types::response::{
    empty_response, with_discord, DiscordEventView, Response, ResponseView,
};

verus! {

/// The server stopped normally.
pub struct ServerStop;

/// The response to the server stopping.
pub open spec fn stop_response() -> ResponseView {
    with_discord(
        with_discord(
            with_discord(empty_response(), DiscordEventView::TextEvent(":x: Server stoped"@)),
            DiscordEventView::StopData,
        ),
        DiscordEventView::Exit,
    )
}

impl InternalEvent for ServerStop {
    fn name(&self) -> (res: &'static str)
        ensures
            res@ == "server_stop"@,
    {
        "server_stop"
    }
}

impl ServerStop {
    /// Marks the server as stopped, announces it and ends the program.
    pub fn execute(&self, state: &mut BotState) -> (res: Response)
        ensures
            final(state)@ == (StateView { players: old(state)@.players, server_on: false }),
            res@ == stop_response(),
    {
        state.server_on = false;
        Response::new().discord_text(":x: Server stoped").discord_stop_data().async_exit()
    }
}

} // verus!
