use vstd::prelude::*;

use super::Event;
use crate::pattern::{group, group_spec};
use crate::state::{leave_spec, players_view, BotState, StateView};
use crate::text::owned;
use crate::types::player::Player;
use crate::types::response::{
    empty_response, with_discord, DiscordEventView, Response, ResponseView,
};

verus! {

/// A player left the game.
pub struct LeaveGame;

/// The text posted when `name` leaves.
pub open spec fn leave_text(name: Seq<char>) -> Seq<char> {
    ":red_circle: **"@ + name + "** left the game"@
}

/// The response to `name` leaving.
pub open spec fn leave_response(name: Seq<char>) -> ResponseView {
    with_discord(
        with_discord(empty_response(), DiscordEventView::TextEvent(leave_text(name))),
        DiscordEventView::RefreshData,
    )
}

impl Event for LeaveGame {
    fn name(&self) -> (res: &'static str)
        ensures
            res@ == "leave_game"@,
    {
        "leave_game"
    }

    fn regex(&self) -> (res: &'static str)
        ensures
            res@ == r"\[.*\]: (.*) left the game"@,
    {
        r"\[.*\]: (.*) left the game"
    }
}

impl LeaveGame {
    /// Forgets every player named by group 1, and announces that they left.
    pub fn execute(&self, state: &mut BotState, captures: &Vec<Option<String>>) -> (res: Response)
        requires
            group_spec(captures.deep_view(), 1) is Some,
        ensures
            ({
                let name = group_spec(captures.deep_view(), 1)->0;
                &&& final(state)@ == StateView {
                    players: leave_spec(old(state)@.players, name),
                    server_on: old(state)@.server_on,
                }
                &&& res@ == leave_response(name)
            }),
    {
        let name = group(captures, 1).unwrap();
        remove_player(&mut state.players, &name);
        let mut text = owned(":red_circle: **");
        text.append(name.as_str());
        text.append("** left the game");
        Response::new().discord_text(text.as_str()).discord_refresh_data()
    }
}

/// Removes every player called `name`, keeping the others in order.
pub fn remove_player(players: &mut Vec<Player>, name: &String)
    ensures
        players_view(final(players)@) == leave_spec(players_view(old(players)@), name@),
{
    let mut old_players: Vec<Player> = Vec::new();
    std::mem::swap(players, &mut old_players);
    let ghost ps = players_view(old_players@);
    let mut i: usize = 0;
    assert(ps.take(0) =~= Seq::<crate::types::player::PlayerView>::empty());
    while i < old_players.len()
        invariant
            i <= old_players.len(),
            ps == players_view(old_players@),
            players_view(players@) == leave_spec(ps.take(i as int), name@),
        decreases old_players.len() - i,
    {
        assert(ps.take(i + 1).drop_last() == ps.take(i as int));
        if old_players[i].name != *name {
            let p = old_players[i].copy();
            let ghost before = players_view(players@);
            players.push(p);
            assert(players_view(players@) =~= before.push(p@));
        }
        i += 1;
    }
    assert(ps.take(old_players.len() as int) == ps);
}

} // verus!
