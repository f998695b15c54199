use vstd::prelude::*;

use crate::text::owned;

verus! {

/// A player the bot has seen on the server.
pub struct Player {
    pub name: String,
    pub online: bool,
    pub bot: bool,
}

/// The mathematical value of a `Player`.
pub ghost struct PlayerView {
    pub name: Seq<char>,
    pub online: bool,
    pub bot: bool,
}

impl View for Player {
    type V = PlayerView;

    open spec fn view(&self) -> PlayerView {
        PlayerView { name: self.name@, online: self.online, bot: self.bot }
    }
}

/// The player that joining under `name` adds: online and not a bot.
pub open spec fn new_player_spec(name: Seq<char>) -> PlayerView {
    PlayerView { name, online: true, bot: false }
}

/// How a player is shown in the player list: a robot marker for bots, then
/// the name.
pub open spec fn player_display_spec(p: PlayerView) -> Seq<char> {
    if p.bot {
        ":robot: "@ + p.name
    } else {
        p.name
    }
}

impl Player {
    /// A real player who is online.
    pub fn new(name: String) -> (res: Self)
        ensures
            res@ == new_player_spec(name@),
    {
        Player { name, online: true, bot: false }
    }

    /// The text that shows this player in the player list.
    pub fn to_display(&self) -> (res: String)
        ensures
            res@ == player_display_spec(self@),
    {
        if self.bot {
            let mut res = owned(":robot: ");
            res.append(self.name.as_str());
            res
        } else {
            owned(self.name.as_str())
        }
    }

    /// A copy of this player.
    pub fn copy(&self) -> (res: Player)
        ensures
            res@ == self@,
    {
        Player { name: self.name.clone(), online: self.online, bot: self.bot }
    }
}

} // verus!
