use vstd::prelude::*;

use crate::state::players_view;
use crate::text::{
    chars_of, lemma_lex_lt_asymmetric, lemma_lex_lt_irreflexive, lemma_lex_lt_total,
    lemma_lex_lt_transitive, lex_lt, lowercase_of, owned, push_char, split, split_spec, lemma_split_nonempty, string_from_range, text_lt,
    to_lowercase,
};
use crate::types::player::{player_display_spec, Player, PlayerView};

verus! {

/// The players of `ps` who are online, in list order.
pub open spec fn online_spec(ps: Seq<PlayerView>) -> Seq<PlayerView>
    decreases ps.len(),
{
    if ps.len() == 0 {
        ps
    } else if ps.last().online {
        online_spec(ps.drop_last()).push(ps.last())
    } else {
        online_spec(ps.drop_last())
    }
}

/// Whether `p` sorts strictly before `q` in the player list: real players
/// before bots, then by lowercase name.
pub open spec fn key_lt(p: PlayerView, q: PlayerView) -> bool {
    ||| !p.bot && q.bot
    ||| p.bot == q.bot && lex_lt(lowercase_of(p.name), lowercase_of(q.name))
}

/// Whether `p` and `q` sort as equal in the player list.
pub open spec fn key_eq(p: PlayerView, q: PlayerView) -> bool {
    p.bot == q.bot && lowercase_of(p.name) == lowercase_of(q.name)
}

/// Whether player `i` of `ps` is shown before player `j`: by sort key,
/// and in list order among players whose keys are equal (the sort is
/// stable).
pub open spec fn shown_before(ps: Seq<PlayerView>, i: int, j: int) -> bool {
    key_lt(ps[i], ps[j]) || (key_eq(ps[i], ps[j]) && i < j)
}

/// Whether `o` lists every index of `ps` once, in the order in which the
/// player list shows the players.
pub open spec fn is_display_order(ps: Seq<PlayerView>, o: Seq<int>) -> bool {
    &&& o.len() == ps.len()
    &&& forall|k: int| 0 <= k < o.len() ==> 0 <= #[trigger] o[k] < ps.len()
    &&& forall|i: int| 0 <= i < ps.len() ==> #[trigger] o.contains(i)
    &&& forall|k1: int, k2: int|
        0 <= k1 < k2 < o.len() ==> shown_before(ps, #[trigger] o[k1], #[trigger] o[k2])
}

/// One line per player of `ps`, in the order `o`.
pub open spec fn player_lines(ps: Seq<PlayerView>, o: Seq<int>) -> Seq<char>
    decreases o.len(),
{
    if o.len() == 0 {
        Seq::empty()
    } else {
        player_lines(ps, o.drop_last()) + player_display_spec(ps[o.last()]) + seq!['\n']
    }
}

/// The player field of the data message for the players `ps` shown in the
/// order `o`: a code block that starts with a zero width space.
pub open spec fn player_list_spec(ps: Seq<PlayerView>, o: Seq<int>) -> Seq<char> {
    "```\u{200b}"@ + player_lines(ps, o) + "```"@
}

proof fn lemma_key_facts(p: PlayerView, q: PlayerView, r: PlayerView)
    ensures
        key_lt(p, q) || key_lt(q, p) || key_eq(p, q),
        key_lt(p, q) ==> !key_lt(q, p) && !key_eq(p, q),
        !key_lt(p, p),
        key_lt(p, q) && key_lt(q, r) ==> key_lt(p, r),
        key_lt(p, q) && key_eq(q, r) ==> key_lt(p, r),
        key_eq(p, q) && key_lt(q, r) ==> key_lt(p, r),
{
    let (a, b, c) = (lowercase_of(p.name), lowercase_of(q.name), lowercase_of(r.name));
    lemma_lex_lt_irreflexive(a);
    if a != b {
        lemma_lex_lt_total(a, b);
    }
    if lex_lt(a, b) {
        lemma_lex_lt_asymmetric(a, b);
        lemma_lex_lt_irreflexive(a);
        if lex_lt(b, c) {
            lemma_lex_lt_transitive(a, b, c);
        }
    }
}

/// Display order is a strict order: never both ways, never of a player
/// with itself.
proof fn lemma_shown_before_strict(ps: Seq<PlayerView>, i: int, j: int)
    requires
        0 <= i < ps.len(),
        0 <= j < ps.len(),
    ensures
        !shown_before(ps, i, i),
        shown_before(ps, i, j) ==> !shown_before(ps, j, i),
{
    lemma_key_facts(ps[i], ps[j], ps[i]);
    lemma_key_facts(ps[j], ps[i], ps[j]);
}

proof fn lemma_display_orders_agree_upto(ps: Seq<PlayerView>, o1: Seq<int>, o2: Seq<int>, k: int)
    requires
        is_display_order(ps, o1),
        is_display_order(ps, o2),
        0 <= k <= o1.len(),
    ensures
        forall|j: int| 0 <= j < k ==> o1[j] == o2[j],
    decreases k,
{
    if k > 0 {
        let m = k - 1;
        lemma_display_orders_agree_upto(ps, o1, o2, m);
        let a = o1[m];
        let b = o2[m];
        assert(o2.contains(a));
        assert(o1.contains(b));
        let p = choose|p: int| 0 <= p < o2.len() && o2[p] == a;
        let q = choose|q: int| 0 <= q < o1.len() && o1[q] == b;
        lemma_shown_before_strict(ps, a, b);
        lemma_shown_before_strict(ps, b, a);
        if p < m {
            assert(o1[p] == a);
            assert(shown_before(ps, o1[p], o1[m]));
        }
        if q < m {
            assert(o2[q] == b);
            assert(shown_before(ps, o2[q], o2[m]));
        }
        if p > m && q > m {
            assert(shown_before(ps, o2[m], o2[p]));
            assert(shown_before(ps, o1[m], o1[q]));
        }
    }
}

/// In a display order, every real player comes before every bot, and among
/// players of the same kind one whose lowercase name comes strictly before
/// the other's (in code point order) is shown first; players whose
/// lowercase names are equal keep their list order.
pub proof fn lemma_display_order_sorted(ps: Seq<PlayerView>, o: Seq<int>, k1: int, k2: int)
    requires
        is_display_order(ps, o),
        0 <= k1 < o.len(),
        0 <= k2 < o.len(),
    ensures
        !ps[o[k1]].bot && ps[o[k2]].bot ==> k1 < k2,
        ps[o[k1]].bot == ps[o[k2]].bot && lex_lt(
            lowercase_of(ps[o[k1]].name),
            lowercase_of(ps[o[k2]].name),
        ) ==> k1 < k2,
        ps[o[k1]].bot == ps[o[k2]].bot && lowercase_of(ps[o[k1]].name) == lowercase_of(
            ps[o[k2]].name,
        ) && o[k1] < o[k2] ==> k1 < k2,
{
    let (i, j) = (o[k1], o[k2]);
    if k2 < k1 {
        assert(shown_before(ps, o[k2], o[k1]));
        lemma_key_facts(ps[j], ps[i], ps[j]);
        lemma_key_facts(ps[i], ps[j], ps[i]);
    }
    if k1 == k2 {
        lemma_lex_lt_irreflexive(lowercase_of(ps[i].name));
    }
}

/// The display order of a player list is unique: the text of the player
/// field is determined by the players.
pub proof fn lemma_display_order_unique(ps: Seq<PlayerView>, o1: Seq<int>, o2: Seq<int>)
    requires
        is_display_order(ps, o1),
        is_display_order(ps, o2),
    ensures
        o1 == o2,
{
    lemma_display_orders_agree_upto(ps, o1, o2, o1.len() as int);
    assert(o1 =~= o2);
}

/// The indices of `o` as mathematical integers.
pub open spec fn order_view(o: Seq<usize>) -> Seq<int> {
    o.map_values(|x: usize| x as int)
}

fn online_players(players: &Vec<Player>) -> (res: Vec<Player>)
    ensures
        players_view(res@) == online_spec(players_view(players@)),
{
    let ghost all = players_view(players@);
    let mut res: Vec<Player> = Vec::new();
    let mut i: usize = 0;
    while i < players.len()
        invariant
            i <= players.len(),
            all == players_view(players@),
            players_view(res@) == online_spec(all.take(i as int)),
        decreases players.len() - i,
    {
        assert(all.take(i + 1).drop_last() == all.take(i as int));
        if players[i].online {
            let p = players[i].copy();
            let ghost before = players_view(res@);
            res.push(p);
            assert(players_view(res@) =~= before.push(p@));
        }
        i += 1;
    }
    assert(all.take(players.len() as int) == all);
    res
}

fn sort_keys(ps: &Vec<Player>) -> (keys: Vec<Vec<char>>)
    ensures
        keys.len() == ps.len(),
        forall|k: int| 0 <= k < ps.len() ==> (#[trigger] keys@[k])@ == lowercase_of(ps@[k].name@),
{
    let mut keys: Vec<Vec<char>> = Vec::new();
    let mut i: usize = 0;
    while i < ps.len()
        invariant
            i <= ps.len(),
            keys.len() == i,
            forall|k: int| 0 <= k < i ==> (#[trigger] keys@[k])@ == lowercase_of(ps@[k].name@),
        decreases ps.len() - i,
    {
        let lower = to_lowercase(ps[i].name.as_str());
        keys.push(chars_of(lower.as_str()));
        i += 1;
    }
    keys
}

fn key_before(p: &Player, kp: &Vec<char>, q: &Player, kq: &Vec<char>) -> (res: bool)
    requires
        kp@ == lowercase_of(p.name@),
        kq@ == lowercase_of(q.name@),
    ensures
        res == key_lt(p@, q@),
{
    (!p.bot && q.bot) || (p.bot == q.bot && text_lt(kp, kq))
}

/// The order of a sort in progress: the first `i` indices, each once, in
/// display order.
spec fn sorted_prefix(ps: Seq<PlayerView>, o: Seq<int>, i: int) -> bool {
    &&& o.len() == i
    &&& forall|k: int| 0 <= k < o.len() ==> 0 <= #[trigger] o[k] < i
    &&& forall|j: int| 0 <= j < i ==> #[trigger] o.contains(j)
    &&& forall|k1: int, k2: int|
        0 <= k1 < k2 < o.len() ==> shown_before(ps, #[trigger] o[k1], #[trigger] o[k2])
}

proof fn lemma_insert_sorted(ps: Seq<PlayerView>, o: Seq<int>, i: int, pos: int)
    requires
        0 <= i < ps.len(),
        sorted_prefix(ps, o, i),
        0 <= pos <= o.len(),
        forall|q: int| 0 <= q < pos ==> !key_lt(ps[i], ps[#[trigger] o[q]]),
        pos < o.len() ==> key_lt(ps[i], ps[o[pos]]),
    ensures
        sorted_prefix(ps, o.insert(pos, i), i + 1),
{
    let n = o.insert(pos, i);
    assert forall|k: int| 0 <= k < n.len() implies 0 <= #[trigger] n[k] < i + 1 by {
        if k > pos {
            assert(n[k] == o[k - 1]);
        }
    }
    assert forall|j: int| 0 <= j < i + 1 implies #[trigger] n.contains(j) by {
        if j == i {
            assert(n[pos] == i);
        } else {
            assert(o.contains(j));
            let k = choose|k: int| 0 <= k < o.len() && o[k] == j;
            if k < pos {
                assert(n[k] == j);
            } else {
                assert(n[k + 1] == j);
            }
        }
    }
    assert forall|k1: int, k2: int| 0 <= k1 < k2 < n.len() implies shown_before(
        ps,
        #[trigger] n[k1],
        #[trigger] n[k2],
    ) by {
        if k2 < pos {
            assert(shown_before(ps, o[k1], o[k2]));
        } else if k2 == pos {
            let e = o[k1];
            assert(!key_lt(ps[i], ps[e]));
            lemma_key_facts(ps[e], ps[i], ps[e]);
        } else if k1 < pos {
            assert(n[k2] == o[k2 - 1]);
            assert(shown_before(ps, o[k1], o[k2 - 1]));
        } else if k1 == pos {
            let e = o[k2 - 1];
            assert(n[k2] == e);
            if k2 - 1 > pos {
                assert(shown_before(ps, o[pos], o[k2 - 1]));
                lemma_key_facts(ps[i], ps[o[pos]], ps[e]);
            }
        } else {
            assert(n[k1] == o[k1 - 1]);
            assert(n[k2] == o[k2 - 1]);
            assert(shown_before(ps, o[k1 - 1], o[k2 - 1]));
        }
    }
}

/// The indices of `ps` in display order.
fn display_order(ps: &Vec<Player>) -> (res: Vec<usize>)
    ensures
        is_display_order(players_view(ps@), order_view(res@)),
{
    let ghost v = players_view(ps@);
    let keys = sort_keys(ps);
    let mut order: Vec<usize> = Vec::new();
    let mut i: usize = 0;
    assert(order_view(order@) =~= Seq::<int>::empty());
    while i < ps.len()
        invariant
            i <= ps.len(),
            v == players_view(ps@),
            keys.len() == ps.len(),
            forall|k: int| 0 <= k < ps.len() ==> (#[trigger] keys@[k])@ == lowercase_of(ps@[k].name@),
            sorted_prefix(v, order_view(order@), i as int),
        decreases ps.len() - i,
    {
        let ghost o = order_view(order@);
        assert forall|k: int| 0 <= k < order.len() implies #[trigger] order@[k] < i by {
            assert(o[k] == order@[k]);
        }
        let mut pos: usize = 0;
        while pos < order.len() && !key_before(&ps[i], &keys[i], &ps[order[pos]], &keys[order[pos]])
            invariant
                i < ps.len(),
                pos <= order.len() == i,
                o == order_view(order@),
                v == players_view(ps@),
                keys.len() == ps.len(),
                forall|k: int| 0 <= k < ps.len() ==> (#[trigger] keys@[k])@ == lowercase_of(ps@[k].name@),
                sorted_prefix(v, o, i as int),
                forall|k: int| 0 <= k < order.len() ==> #[trigger] order@[k] < i,
                forall|q: int| 0 <= q < pos ==> !key_lt(v[i as int], v[#[trigger] o[q]]),
            decreases order.len() - pos,
        {
            assert(o[pos as int] == order@[pos as int]);
            pos += 1;
        }
        proof {
            if pos < order.len() {
                assert(o[pos as int] == order@[pos as int]);
            }
            lemma_insert_sorted(v, o, i as int, pos as int);
        }
        order.insert(pos, i);
        assert(order_view(order@) =~= o.insert(pos as int, i as int));
        i += 1;
    }
    order
}

/// The player field of the data message: the online players, real players
/// before bots and each group by lowercase name (list order between equal
/// names), one per line, in a code block that starts with a zero width
/// space.
pub fn player_list_text(players: &Vec<Player>) -> (res: String)
    ensures
        exists|o: Seq<int>|
            #[trigger] is_display_order(online_spec(players_view(players@)), o) && res@
                == player_list_spec(online_spec(players_view(players@)), o),
{
    let online = online_players(players);
    let ghost v = players_view(online@);
    let order = display_order(&online);
    let ghost o = order_view(order@);
    let mut res = owned("```\u{200b}");
    let mut k: usize = 0;
    assert(o.take(0) =~= Seq::<int>::empty());
    while k < order.len()
        invariant
            k <= order.len() == online.len(),
            v == players_view(online@),
            o == order_view(order@),
            is_display_order(v, o),
            res@ == "```\u{200b}"@ + player_lines(v, o.take(k as int)),
        decreases order.len() - k,
    {
        assert(o.take(k + 1).drop_last() == o.take(k as int));
        assert(o[k as int] == order@[k as int]);
        let line = online[order[k]].to_display();
        res.append(line.as_str());
        push_char(&mut res, '\n');
        assert(res@ == "```\u{200b}"@ + player_lines(v, o.take(k + 1)));
        k += 1;
    }
    assert(o.take(order.len() as int) == o);
    res.append("```");
    assert(is_display_order(v, o) && res@ == player_list_spec(v, o));
    res
}

/// The words of a command message: the text after `prefix`, split at each
/// space.
pub open spec fn command_parts_spec(cmd: Seq<char>, prefix: Seq<char>) -> Seq<Seq<char>> {
    split_spec(cmd.skip(prefix.len() as int), ' ')
}

/// The words of the command message `cmd`, which starts with `prefix`.
pub fn command_parts(cmd: &str, prefix: &str) -> (res: Vec<String>)
    requires
        prefix@.len() <= cmd@.len(),
        cmd@.take(prefix@.len() as int) == prefix@,
    ensures
        res.deep_view() == command_parts_spec(cmd@, prefix@),
        res.len() >= 1,
{
    let chars = chars_of(cmd);
    let skip = chars_of(prefix).len();
    let rest = string_from_range(&chars, skip, chars.len());
    assert(chars@.subrange(skip as int, chars.len() as int) == cmd@.skip(prefix@.len() as int));
    proof {
        lemma_split_nonempty(rest@, ' ');
    }
    split(rest.as_str(), ' ')
}

} // verus!
