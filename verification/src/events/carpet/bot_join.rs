use vstd::prelude::*;

use crate::events::Event;
use crate::pattern::{group, group_spec};
use crate::state::{bot_join_spec, players_view, BotState, StateView};
use crate::types::player::Player;
use crate::types::response::{empty_response, Response};

verus! {

/// A carpet mod fake player logged in.
pub struct BotJoin;

impl Event for BotJoin {
    fn name(&self) -> (res: &'static str)
        ensures
            res@ == "bot_join"@,
    {
        "bot_join"
    }

    fn regex(&self) -> (res: &'static str)
        ensures
            res@ == r"\[.*\]: (.*)\[local\] logged in"@,
    {
        r"\[.*\]: (.*)\[local\] logged in"
    }
}

impl BotJoin {
    /// Records the bot named by group 1 as an offline bot; its joining the
    /// game then brings it online.
    pub fn execute(&self, state: &mut BotState, captures: &Vec<Option<String>>) -> (res: Response)
        requires
            group_spec(captures.deep_view(), 1) is Some,
        ensures
            final(state)@ == (StateView {
                players: bot_join_spec(old(state)@.players, group_spec(captures.deep_view(), 1)->0),
                server_on: old(state)@.server_on,
            }),
            res@ == empty_response(),
    {
        let name = group(captures, 1).unwrap();
        let p = Player { name, online: false, bot: true };
        let ghost before = players_view(state.players@);
        state.players.push(p);
        assert(players_view(state.players@) =~= before.push(p@));
        Response::new()
    }
}

} // verus!
