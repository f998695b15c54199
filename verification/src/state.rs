use vstd::prelude::*;

use crate::types::player::{new_player_spec, Player, PlayerView};

verus! {

/// What the bot knows of the server: the players it has seen, and whether
/// the server is running.
pub struct BotState {
    pub players: Vec<Player>,
    pub server_on: bool,
}

/// The mathematical value of a `BotState`.
pub ghost struct StateView {
    pub players: Seq<PlayerView>,
    pub server_on: bool,
}

/// The views of a list of players.
pub open spec fn players_view(v: Seq<Player>) -> Seq<PlayerView> {
    v.map_values(|p: Player| p@)
}

impl View for BotState {
    type V = StateView;

    open spec fn view(&self) -> StateView {
        StateView { players: players_view(self.players@), server_on: self.server_on }
    }
}

impl BotState {
    /// The state when the bot starts: nobody seen, server not running.
    pub fn new() -> (res: Self)
        ensures
            res@.players == Seq::<PlayerView>::empty(),
            !res@.server_on,
    {
        let res = BotState { players: Vec::new(), server_on: false };
        assert(res@.players == Seq::<PlayerView>::empty());
        res
    }
}

/// The index of the first player called `name`, or `ps.len()` when there
/// is none.
pub open spec fn first_with_name(ps: Seq<PlayerView>, name: Seq<char>) -> int
    decreases ps.len(),
{
    if ps.len() == 0 {
        0
    } else if ps[0].name == name {
        0
    } else {
        1 + first_with_name(ps.drop_first(), name)
    }
}

/// `first_with_name` is the first index holding `name`, or the length.
pub proof fn lemma_first_with_name(ps: Seq<PlayerView>, name: Seq<char>, i: int)
    requires
        0 <= i <= ps.len(),
        forall|j: int| 0 <= j < i ==> ps[j].name != name,
        i == ps.len() || ps[i].name == name,
    ensures
        first_with_name(ps, name) == i,
    decreases ps.len(),
{
    if ps.len() > 0 && ps[0].name != name {
        assert forall|j: int| 0 <= j < i - 1 implies ps.drop_first()[j].name != name by {
            assert(ps.drop_first()[j] == ps[j + 1]);
        }
        lemma_first_with_name(ps.drop_first(), name, i - 1);
    }
}

/// The first index holding `name` is within bounds and nothing before it
/// holds the name.
pub proof fn lemma_first_with_name_bounds(ps: Seq<PlayerView>, name: Seq<char>)
    ensures
        0 <= first_with_name(ps, name) <= ps.len(),
        first_with_name(ps, name) < ps.len() ==> ps[first_with_name(ps, name)].name == name,
        forall|j: int| 0 <= j < first_with_name(ps, name) ==> ps[j].name != name,
    decreases ps.len(),
{
    if ps.len() > 0 && ps[0].name != name {
        lemma_first_with_name_bounds(ps.drop_first(), name);
        assert forall|j: int| 0 <= j < first_with_name(ps, name) implies ps[j].name != name by {
            if j > 0 {
                assert(ps.drop_first()[j - 1] == ps[j]);
            }
        }
    }
}

/// The player list after `name` joins the game, and whether the player who
/// joined is a bot.
///
/// A name already in the list keeps its entry: an offline bot comes back
/// online, anything else stays as it was. A new name is appended as an
/// online real player.
pub open spec fn join_spec(ps: Seq<PlayerView>, name: Seq<char>) -> (Seq<PlayerView>, bool) {
    let i = first_with_name(ps, name);
    if i < ps.len() {
        let p = ps[i];
        if !p.online && p.bot {
            (ps.update(i, PlayerView { online: true, ..p }), p.bot)
        } else {
            (ps, p.bot)
        }
    } else {
        (ps.push(new_player_spec(name)), false)
    }
}

/// The player list without every player called `name`, the rest in order.
pub open spec fn leave_spec(ps: Seq<PlayerView>, name: Seq<char>) -> Seq<PlayerView>
    decreases ps.len(),
{
    if ps.len() == 0 {
        ps
    } else if ps.last().name == name {
        leave_spec(ps.drop_last(), name)
    } else {
        leave_spec(ps.drop_last(), name).push(ps.last())
    }
}

/// The player list after a carpet bot called `name` logs in: the bot is
/// appended as offline.
pub open spec fn bot_join_spec(ps: Seq<PlayerView>, name: Seq<char>) -> Seq<PlayerView> {
    ps.push(PlayerView { name, online: false, bot: true })
}

} // verus!
verus! {

/// After a leave, nobody of that name is left in the list.
pub proof fn lemma_leave_removes_name(ps: Seq<PlayerView>, name: Seq<char>)
    ensures
        forall|i: int| 0 <= i < leave_spec(ps, name).len() ==> (#[trigger] leave_spec(ps, name)[i]).name != name,
        leave_spec(ps, name).len() <= ps.len(),
    decreases ps.len(),
{
    if ps.len() > 0 {
        lemma_leave_removes_name(ps.drop_last(), name);
    }
}

/// A leave keeps a list in which nobody has that name as it is.
pub proof fn lemma_leave_without_name(ps: Seq<PlayerView>, name: Seq<char>)
    requires
        forall|i: int| 0 <= i < ps.len() ==> (#[trigger] ps[i]).name != name,
    ensures
        leave_spec(ps, name) == ps,
    decreases ps.len(),
{
    if ps.len() > 0 {
        lemma_leave_without_name(ps.drop_last(), name);
        assert(ps.drop_last().push(ps.last()) == ps);
    }
}

/// Leaving twice is leaving once.
pub proof fn lemma_leave_idempotent(ps: Seq<PlayerView>, name: Seq<char>)
    ensures
        leave_spec(leave_spec(ps, name), name) == leave_spec(ps, name),
{
    lemma_leave_removes_name(ps, name);
    lemma_leave_without_name(leave_spec(ps, name), name);
}

/// A leave does not touch the players of other names.
pub proof fn lemma_leave_update_other(ps: Seq<PlayerView>, name: Seq<char>, i: int, p: PlayerView)
    requires
        0 <= i < ps.len(),
        ps[i].name == name,
        p.name == name,
    ensures
        leave_spec(ps.update(i, p), name) == leave_spec(ps, name),
    decreases ps.len(),
{
    if i == ps.len() - 1 {
        assert(ps.update(i, p).drop_last() == ps.drop_last());
    } else {
        assert(ps.update(i, p).drop_last() == ps.drop_last().update(i, p));
        lemma_leave_update_other(ps.drop_last(), name, i, p);
    }
}

/// Leaving undoes joining: joining and then leaving under a name gives the
/// same list as leaving alone.
pub proof fn lemma_join_then_leave(ps: Seq<PlayerView>, name: Seq<char>)
    ensures
        leave_spec(join_spec(ps, name).0, name) == leave_spec(ps, name),
{
    lemma_first_with_name_bounds(ps, name);
    let i = first_with_name(ps, name);
    if i < ps.len() {
        let p = ps[i];
        if !p.online && p.bot {
            lemma_leave_update_other(ps, name, i, PlayerView { online: true, ..p });
        }
    } else {
        assert(ps.push(new_player_spec(name)).drop_last() == ps);
    }
}

/// Joining is idempotent: a second join under the same name changes
/// nothing and reports the same kind of player.
pub proof fn lemma_join_idempotent(ps: Seq<PlayerView>, name: Seq<char>)
    ensures
        join_spec(join_spec(ps, name).0, name) == join_spec(ps, name),
{
    lemma_first_with_name_bounds(ps, name);
    let i = first_with_name(ps, name);
    let qs = join_spec(ps, name).0;
    if i < ps.len() {
        assert forall|j: int| 0 <= j < i implies qs[j].name != name by {}
        lemma_first_with_name(qs, name, i);
    } else {
        assert forall|j: int| 0 <= j < ps.len() implies qs[j].name != name by {}
        lemma_first_with_name(qs, name, ps.len() as int);
    }
}

/// After a join, the first player of that name is in the list, and online
/// when the name was new or was an offline bot.
pub proof fn lemma_join_present(ps: Seq<PlayerView>, name: Seq<char>)
    ensures
        ({
            let qs = join_spec(ps, name).0;
            let i = first_with_name(qs, name);
            &&& i < qs.len()
            &&& qs[i].name == name
            &&& (i == ps.len() || (ps[i].bot && !ps[i].online)) ==> qs[i].online
        }),
{
    lemma_first_with_name_bounds(ps, name);
    let i = first_with_name(ps, name);
    let qs = join_spec(ps, name).0;
    if i < ps.len() {
        lemma_first_with_name(qs, name, i);
    } else {
        lemma_first_with_name(qs, name, ps.len() as int);
    }
}

/// A carpet bot that logs in under a new name and then joins the game is
/// listed as an online bot, and the join reports a bot.
pub proof fn lemma_bot_login_then_join(ps: Seq<PlayerView>, name: Seq<char>)
    requires
        forall|i: int| 0 <= i < ps.len() ==> (#[trigger] ps[i]).name != name,
    ensures
        join_spec(bot_join_spec(ps, name), name) == (
            ps.push(PlayerView { name, online: true, bot: true }),
            true,
        ),
{
    let qs = bot_join_spec(ps, name);
    lemma_first_with_name(qs, name, ps.len() as int);
    assert(qs.update(ps.len() as int, PlayerView { name, online: true, bot: true }) =~= ps.push(
        PlayerView { name, online: true, bot: true },
    ));
}

} // verus!
