use vstd::prelude::*;

use super::Event;
use crate::pattern::{group, group_spec};
use crate::state::{
    join_spec, lemma_first_with_name, players_view, BotState, StateView,
};
use crate::text::owned;
use crate::types::player::Player;
use crate::types::response::{
    empty_response, with_discord, DiscordEventView, Response, ResponseView,
};

verus! {

/// A player joined the game.
pub struct JoinGame;

/// The robot marker shown before a bot's name, nothing for a real player.
pub open spec fn robot_marker(bot: bool) -> Seq<char> {
    if bot {
        ":robot: "@
    } else {
        Seq::empty()
    }
}

/// The text posted when `name` joins.
pub open spec fn join_text(name: Seq<char>, bot: bool) -> Seq<char> {
    ":green_circle: "@ + robot_marker(bot) + "**"@ + name + "** joined the game"@
}

/// The response to `name` joining.
pub open spec fn join_response(name: Seq<char>, bot: bool) -> ResponseView {
    with_discord(
        with_discord(empty_response(), DiscordEventView::TextEvent(join_text(name, bot))),
        DiscordEventView::RefreshData,
    )
}

impl Event for JoinGame {
    fn name(&self) -> (res: &'static str)
        ensures
            res@ == "join_game"@,
    {
        "join_game"
    }

    fn regex(&self) -> (res: &'static str)
        ensures
            res@ == r"\[.*\]: (.*) joined the game"@,
    {
        r"\[.*\]: (.*) joined the game"
    }
}

impl JoinGame {
    /// Records the player named by group 1 as online, and announces them.
    pub fn execute(&self, state: &mut BotState, captures: &Vec<Option<String>>) -> (res: Response)
        requires
            group_spec(captures.deep_view(), 1) is Some,
        ensures
            ({
                let name = group_spec(captures.deep_view(), 1)->0;
                let (players, bot) = join_spec(old(state)@.players, name);
                &&& final(state)@ == StateView { players, server_on: old(state)@.server_on }
                &&& res@ == join_response(name, bot)
            }),
    {
        let name = group(captures, 1).unwrap();
        let bot = add_player(&mut state.players, name.clone());
        let text = join_text_of(name.as_str(), bot);
        Response::new().discord_text(text.as_str()).discord_refresh_data()
    }
}

fn join_text_of(name: &str, bot: bool) -> (res: String)
    ensures
        res@ == join_text(name@, bot),
{
    let mut res = owned(":green_circle: ");
    if bot {
        res.append(":robot: ");
    } else {
        assert(res@ + robot_marker(bot) == res@);
    }
    res.append("**");
    res.append(name);
    res.append("** joined the game");
    res
}

/// Adds `name` to the player list, or brings an offline bot of that name
/// back online; returns whether the player is a bot.
pub fn add_player(players: &mut Vec<Player>, name: String) -> (bot: bool)
    ensures
        (players_view(final(players)@), bot) == join_spec(players_view(old(players)@), name@),
{
    let ghost ps = players_view(players@);
    let mut i: usize = 0;
    while i < players.len()
        invariant
            i <= players.len(),
            players_view(players@) == ps,
            players@ == old(players)@,
            forall|j: int| 0 <= j < i ==> ps[j].name != name@,
        decreases players.len() - i,
    {
        if players[i].name == name {
            proof {
                lemma_first_with_name(ps, name@, i as int);
            }
            let bot = players[i].bot;
            if !players[i].online && bot {
                let mut p = players[i].copy();
                p.online = true;
                players.set(i, p);
                assert(players_view(players@) =~= ps.update(i as int, p@));
            }
            return bot;
        }
        i += 1;
    }
    proof {
        lemma_first_with_name(ps, name@, i as int);
    }
    let p = Player::new(name);
    players.push(p);
    assert(players_view(players@) =~= ps.push(p@));
    false
}

} // verus!
