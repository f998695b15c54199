use vstd::prelude::*;

use super::InternalEvent;
use crate::state::{BotState, StateView};
use crate::text::{owned, signed_decimal, signed_decimal_spec};
use crate::types::response::{
    empty_response, with_discord, DiscordEventView, Response, ResponseView,
};

verus! {

/// The server exited with the given non-zero status code.
pub struct ServerCrash(pub i32);

/// The text posted when the server crashes with status `code`.
pub open spec fn crash_text(code: int) -> Seq<char> {
    ":fire: Server crahsed ("@ + signed_decimal_spec(code) + ")"@
}

/// The response to the server crashing with status `code`.
pub open spec fn crash_response(code: int) -> ResponseView {
    with_discord(
        with_discord(
            with_discord(empty_response(), DiscordEventView::TextEvent(crash_text(code))),
            DiscordEventView::StopData,
        ),
        DiscordEventView::Exit,
    )
}

impl InternalEvent for ServerCrash {
    fn name(&self) -> (res: &'static str)
        ensures
            res@ == "server_crash"@,
    {
        "server_crash"
    }
}

impl ServerCrash {
    /// Marks the server as stopped, announces the crash with its status code
    /// and ends the program.
    pub fn execute(&self, state: &mut BotState) -> (res: Response)
        ensures
            final(state)@ == (StateView { players: old(state)@.players, server_on: false }),
            res@ == crash_response(self.0 as int),
    {
        state.server_on = false;
        let mut text = owned(":fire: Server crahsed (");
        let code = signed_decimal(self.0 as i64);
        text.append(code.as_str());
        text.append(")");
        Response::new().discord_text(text.as_str()).discord_stop_data().async_exit()
    }
}

} // verus!
