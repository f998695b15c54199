use vstd::prelude::*;

use super::Command;
use crate::discord::misc::{command_parts, command_parts_spec};
use crate::pattern::{group, group_spec, regex_captures, regex_captures_of, PatternError};
use crate::text::{chars_of, join_from, join_spec, owned, push_char, same_text, string_from_chars};
use crate::types::response::{empty_response, with_server, Response, ResponseView};

verus! {

/// Runs carpet mod player actions on the server.
pub struct Player;

impl Command for Player {
    fn name(&self) -> (res: &'static str)
        ensures
            res@ == "player"@,
    {
        "player"
    }

    fn help(&self) -> (res: &'static str)
        ensures
            res@ == "player <name> (spawn|kill) [at X X X] [facing X X] [in X]"@,
    {
        "player <name> (spawn|kill) [at X X X] [facing X X] [in X]"
    }

    fn description(&self) -> (res: &'static str)
        ensures
            res@ == "Runs carpet player actions on the server"@,
    {
        "Runs carpet player actions on the server"
    }

    fn needs_server(&self) -> (res: bool)
        ensures
            res,
    {
        true
    }
}

/// Whether character `i` of `s` survives the removal of doubled spaces: a
/// space goes when the character before it is a space too, the first
/// character counting as its own predecessor.
pub open spec fn kept(s: Seq<char>, i: int) -> bool {
    !(s[i] == ' ' && s[if i > 0 {
        i - 1
    } else {
        0
    }] == ' ')
}

/// The first `k` characters of `s` without doubled spaces.
pub open spec fn rem_dub_space_prefix(s: Seq<char>, k: int) -> Seq<char>
    decreases k,
{
    if k <= 0 {
        Seq::empty()
    } else if kept(s, k - 1) {
        rem_dub_space_prefix(s, k - 1).push(s[k - 1])
    } else {
        rem_dub_space_prefix(s, k - 1)
    }
}

/// `s` without doubled spaces.
pub open spec fn rem_dub_space_spec(s: Seq<char>) -> Seq<char> {
    rem_dub_space_prefix(s, s.len() as int)
}

/// Whether `t` holds no two spaces in a row and does not start with one.
pub open spec fn single_spaced(t: Seq<char>) -> bool {
    &&& t.len() > 0 ==> t[0] != ' '
    &&& forall|i: int| 0 <= i < t.len() - 1 ==> !(#[trigger] t[i] == ' ' && t[i + 1] == ' ')
}

/// `s` without the spaces that follow a space, and without a leading space.
pub fn rem_dub_space(inp: String) -> (res: String)
    ensures
        res@ == rem_dub_space_spec(inp@),
{
    let chars = chars_of(inp.as_str());
    let mut out: Vec<char> = Vec::new();
    let mut i: usize = 0;
    while i < chars.len()
        invariant
            i <= chars.len(),
            chars@ == inp@,
            out@ == rem_dub_space_prefix(chars@, i as int),
        decreases chars.len() - i,
    {
        let prev = if i > 0 {
            i - 1
        } else {
            0
        };
        if !(chars[i] == ' ' && chars[prev] == ' ') {
            out.push(chars[i]);
        }
        i += 1;
    }
    string_from_chars(&out)
}

proof fn lemma_rem_dub_space_prefix_shape(s: Seq<char>, k: int)
    requires
        0 <= k <= s.len(),
    ensures
        single_spaced(rem_dub_space_prefix(s, k)),
        k >= 1 && s[k - 1] != ' ' ==> rem_dub_space_prefix(s, k).len() > 0
            && rem_dub_space_prefix(s, k).last() == s[k - 1],
        k >= 1 && s[k - 1] == ' ' && rem_dub_space_prefix(s, k).len() > 0
            ==> rem_dub_space_prefix(s, k).last() == ' ',
    decreases k,
{
    if k >= 1 {
        lemma_rem_dub_space_prefix_shape(s, k - 1);
        let t = rem_dub_space_prefix(s, k - 1);
        if kept(s, k - 1) {
            let u = t.push(s[k - 1]);
            assert forall|i: int| 0 <= i < u.len() - 1 implies !(#[trigger] u[i] == ' ' && u[i + 1] == ' ') by {
                if i + 1 == t.len() && s[k - 1] == ' ' {
                    assert(k - 1 > 0);
                    assert(s[k - 2] != ' ');
                }
            }
        }
    }
}

/// The result of `rem_dub_space` never holds two spaces in a row and never
/// starts with a space.
pub proof fn lemma_rem_dub_space_single_spaced(s: Seq<char>)
    ensures
        single_spaced(rem_dub_space_spec(s)),
{
    lemma_rem_dub_space_prefix_shape(s, s.len() as int);
}

proof fn lemma_rem_dub_space_prefix_keeps(t: Seq<char>, k: int)
    requires
        single_spaced(t),
        0 <= k <= t.len(),
    ensures
        rem_dub_space_prefix(t, k) == t.take(k),
    decreases k,
{
    if k >= 1 {
        lemma_rem_dub_space_prefix_keeps(t, k - 1);
        if k - 1 > 0 {
            assert(!(t[k - 2] == ' ' && t[k - 1] == ' '));
        }
        assert(t.take(k) == t.take(k - 1).push(t[k - 1]));
    } else {
        assert(t.take(0) =~= Seq::<char>::empty());
    }
}

/// `rem_dub_space` leaves a text without doubled or leading spaces as it is.
pub proof fn lemma_rem_dub_space_keeps_single_spaced(t: Seq<char>)
    requires
        single_spaced(t),
    ensures
        rem_dub_space_spec(t) == t,
{
    lemma_rem_dub_space_prefix_keeps(t, t.len() as int);
    assert(t.take(t.len() as int) == t);
}

/// Removing doubled spaces twice is the same as removing them once.
pub proof fn lemma_rem_dub_space_idempotent(s: Seq<char>)
    ensures
        rem_dub_space_spec(rem_dub_space_spec(s)) == rem_dub_space_spec(s),
{
    lemma_rem_dub_space_single_spaced(s);
    lemma_rem_dub_space_keeps_single_spaced(rem_dub_space_spec(s));
}

proof fn lemma_rem_dub_space_prefix_agree(u: Seq<char>, v: Seq<char>, k: int)
    requires
        0 <= k <= u.len(),
        k <= v.len(),
        u.take(k) == v.take(k),
    ensures
        rem_dub_space_prefix(u, k) == rem_dub_space_prefix(v, k),
    decreases k,
{
    if k > 0 {
        assert(u.take(k - 1) == u.take(k).take(k - 1));
        assert(v.take(k - 1) == v.take(k).take(k - 1));
        lemma_rem_dub_space_prefix_agree(u, v, k - 1);
        assert(u[k - 1] == u.take(k)[k - 1]);
        assert(v[k - 1] == v.take(k)[k - 1]);
        if k - 1 > 0 {
            assert(u[k - 2] == u.take(k)[k - 2]);
            assert(v[k - 2] == v.take(k)[k - 2]);
        }
    }
}

proof fn lemma_rem_dub_space_append_prefix(s: Seq<char>, t: Seq<char>, k: int)
    requires
        single_spaced(t),
        0 <= k <= t.len(),
    ensures
        rem_dub_space_prefix(s + t, s.len() + k) == rem_dub_space_spec(s) + t.take(k),
    decreases k,
{
    let u = s + t;
    if k == 0 {
        assert(u.take(s.len() as int) == s.take(s.len() as int));
        lemma_rem_dub_space_prefix_agree(u, s, s.len() as int);
        assert(rem_dub_space_spec(s) + t.take(0) == rem_dub_space_spec(s));
    } else {
        lemma_rem_dub_space_append_prefix(s, t, k - 1);
        let n = s.len() + k - 1;
        assert(u[n] == t[k - 1]);
        if t[k - 1] == ' ' {
            assert(k - 1 > 0);
            assert(u[n - 1] == t[k - 2]);
            assert(!(t[k - 2] == ' ' && t[k - 1] == ' '));
        }
        assert(kept(u, n));
        assert(t.take(k) == t.take(k - 1).push(t[k - 1]));
    }
}

/// Removing doubled spaces from `s + t`, where `t` is already single spaced
/// and does not start with a space, leaves `t` as it is at the end.
pub proof fn lemma_rem_dub_space_append(s: Seq<char>, t: Seq<char>)
    requires
        single_spaced(t),
    ensures
        rem_dub_space_spec(s + t) == rem_dub_space_spec(s) + t,
{
    lemma_rem_dub_space_append_prefix(s, t, t.len() as int);
    assert(t.take(t.len() as int) == t);
}

/// The pattern that the arguments of a player command must match.
pub open spec fn player_regex_spec() -> Seq<char> {
    r"(.*) (spawn|kill)( at [-\.\d ]+)?( ?facing ([-\.\d ]+))?( ?in minecraft:(overworld|the_end|the_nether))?"@
}

fn player_regex() -> (res: &'static str)
    ensures
        res@ == player_regex_spec(),
{
    r"(.*) (spawn|kill)( at [-\.\d ]+)?( ?facing ([-\.\d ]+))?( ?in minecraft:(overworld|the_end|the_nether))?"
}

/// The arguments of the player command in the message `content`: the words
/// after the command's name, joined by single spaces.
pub open spec fn player_args_spec(content: Seq<char>, prefix: Seq<char>) -> Seq<char> {
    rem_dub_space_spec(join_spec(command_parts_spec(content, prefix).skip(1), ' '))
}

/// The text of a capture group, or `default` when it took no part.
pub open spec fn or_default(g: Option<Seq<char>>, default: Seq<char>) -> Seq<char> {
    match g {
        Some(t) => t,
        None => default,
    }
}

/// The carpet command for the capture groups of a player command: a spawn
/// gets a position, a facing and a dimension, the given ones or defaults.
pub open spec fn carpet_command_spec(caps: Seq<Option<Seq<char>>>) -> Seq<char> {
    let action = group_spec(caps, 2)->0;
    let base = "/player "@ + group_spec(caps, 1)->0 + " "@ + action;
    let full = if action == "spawn"@ {
        base + " "@ + or_default(group_spec(caps, 3), "at ~ ~ ~"@) + " "@ + or_default(
            group_spec(caps, 4),
            "facing 0 0"@,
        ) + " "@ + or_default(group_spec(caps, 6), "in minecraft:overworld"@)
    } else {
        base
    };
    rem_dub_space_spec(full.push('\n'))
}

/// The last group of the player pattern offers exactly the three
/// dimensions: overworld, the end and the nether.
pub proof fn lemma_player_pattern_dimensions()
    ensures
        player_regex_spec() == r"(.*) (spawn|kill)( at [-\.\d ]+)?( ?facing ([-\.\d ]+))?"@
            + r"( ?in minecraft:(overworld|the_end|the_nether))?"@,
{
    reveal_strlit(r"(.*) (spawn|kill)( at [-\.\d ]+)?( ?facing ([-\.\d ]+))?( ?in minecraft:(overworld|the_end|the_nether))?");
    reveal_strlit(r"(.*) (spawn|kill)( at [-\.\d ]+)?( ?facing ([-\.\d ]+))?");
    reveal_strlit(r"( ?in minecraft:(overworld|the_end|the_nether))?");
    assert(player_regex_spec() =~= r"(.*) (spawn|kill)( at [-\.\d ]+)?( ?facing ([-\.\d ]+))?"@
        + r"( ?in minecraft:(overworld|the_end|the_nether))?"@);
}

/// A spawn that names a dimension (the dimension group, with or without its
/// leading space) sends a carpet command that ends with that dimension
/// clause and a newline.
pub proof fn lemma_spawn_keeps_dimension(caps: Seq<Option<Seq<char>>>, d: Seq<char>)
    requires
        group_spec(caps, 2) == Some("spawn"@),
        group_spec(caps, 6) == Some(d) || group_spec(caps, 6) == Some(seq![' '] + d),
        single_spaced(d),
    ensures
        ({
            let c = carpet_command_spec(caps);
            c.len() >= d.len() + 1 && c.skip(c.len() - d.len() - 1) == d.push('\n')
        }),
{
    let action = group_spec(caps, 2)->0;
    let base = "/player "@ + group_spec(caps, 1)->0 + " "@ + action;
    let head = base + " "@ + or_default(group_spec(caps, 3), "at ~ ~ ~"@) + " "@ + or_default(
        group_spec(caps, 4),
        "facing 0 0"@,
    ) + " "@;
    let t = d.push('\n');
    assert forall|i: int| 0 <= i < t.len() - 1 implies !(#[trigger] t[i] == ' ' && t[i + 1] == ' ') by {
        if i + 1 < d.len() {
            assert(t[i] == d[i] && t[i + 1] == d[i + 1]);
        }
    }
    assert(single_spaced(t));
    let pre = if group_spec(caps, 6) == Some(d) {
        head
    } else {
        head + seq![' ']
    };
    assert((head + group_spec(caps, 6)->0).push('\n') =~= pre + t);
    lemma_rem_dub_space_append(pre, t);
    let c = carpet_command_spec(caps);
    assert(c == rem_dub_space_spec(pre) + t);
    assert(c.skip(c.len() - t.len()) =~= t);
}

/// The reply to a player command.
pub enum PlayerOutcome {
    /// The command to send to the server.
    Command(Response),
    /// The arguments did not fit; the text explains the expected form.
    Invalid(String),
}

/// The mathematical value of a `PlayerOutcome`.
pub ghost enum PlayerOutcomeView {
    Command(ResponseView),
    Invalid(Seq<char>),
}

impl View for PlayerOutcome {
    type V = PlayerOutcomeView;

    open spec fn view(&self) -> PlayerOutcomeView {
        match self {
            PlayerOutcome::Command(r) => PlayerOutcomeView::Command(r@),
            PlayerOutcome::Invalid(t) => PlayerOutcomeView::Invalid(t@),
        }
    }
}

/// The explanation given for arguments that do not fit.
pub open spec fn player_usage_text() -> Seq<char> {
    "This command used the following arg structure: `"@
        + "player <name> (spawn|kill) [at X X X] [facing X X] [in X]"@ + "`"@
}

/// The reply to the player command in `content`; `None` when the pattern
/// does not compile.
pub open spec fn player_reply_spec(content: Seq<char>, prefix: Seq<char>) -> Option<
    PlayerOutcomeView,
> {
    match regex_captures_of(player_regex_spec(), player_args_spec(content, prefix)) {
        None => None,
        Some(None) => Some(PlayerOutcomeView::Invalid(player_usage_text())),
        Some(Some(caps)) => if group_spec(caps, 1) is Some && group_spec(caps, 2) is Some {
            Some(
                PlayerOutcomeView::Command(
                    with_server(empty_response(), carpet_command_spec(caps)),
                ),
            )
        } else {
            Some(PlayerOutcomeView::Invalid(player_usage_text()))
        },
    }
}

fn append_group_or(s: &mut String, caps: &Vec<Option<String>>, i: usize, default: &str)
    ensures
        final(s)@ == old(s)@ + or_default(group_spec(caps.deep_view(), i as int), default@),
{
    match group(caps, i) {
        Some(g) => s.append(g.as_str()),
        None => s.append(default),
    }
}

fn carpet_command(caps: &Vec<Option<String>>) -> (res: String)
    requires
        group_spec(caps.deep_view(), 1) is Some,
        group_spec(caps.deep_view(), 2) is Some,
    ensures
        res@ == carpet_command_spec(caps.deep_view()),
{
    let name = group(caps, 1).unwrap();
    let action = group(caps, 2).unwrap();
    let mut cmd = owned("/player ");
    cmd.append(name.as_str());
    cmd.append(" ");
    cmd.append(action.as_str());
    if same_text(action.as_str(), "spawn") {
        cmd.append(" ");
        append_group_or(&mut cmd, caps, 3, "at ~ ~ ~");
        cmd.append(" ");
        append_group_or(&mut cmd, caps, 4, "facing 0 0");
        cmd.append(" ");
        append_group_or(&mut cmd, caps, 6, "in minecraft:overworld");
    }
    push_char(&mut cmd, '\n');
    rem_dub_space(cmd)
}

fn usage_text() -> (res: String)
    ensures
        res@ == player_usage_text(),
{
    let mut res = owned("This command used the following arg structure: `");
    res.append(Player.help());
    res.append("`");
    res
}

impl Player {
    /// What the player command in the message `content` asks for: a carpet
    /// command for the server, or an explanation of the expected arguments.
    pub fn reply(&self, prefix: &str, content: &str) -> (res: Result<PlayerOutcome, PatternError>)
        requires
            prefix@.len() <= content@.len(),
            content@.take(prefix@.len() as int) == prefix@,
        ensures
            match res {
                Ok(o) => player_reply_spec(content@, prefix@) == Some(o@),
                Err(_) => player_reply_spec(content@, prefix@) is None,
            },
    {
        let parts = command_parts(content, prefix);
        let args = rem_dub_space(join_from(&parts, 1, ' '));
        match regex_captures(player_regex(), args.as_str()) {
            Err(_) => Err(PatternError),
            Ok(None) => Ok(PlayerOutcome::Invalid(usage_text())),
            Ok(Some(caps)) => {
                if caps.len() > 2 && caps[1].is_some() && caps[2].is_some() {
                    let cmd = carpet_command(&caps);
                    Ok(PlayerOutcome::Command(Response::new().server_command(cmd.as_str())))
                } else {
                    Ok(PlayerOutcome::Invalid(usage_text()))
                }
            },
        }
    }
}

} // verus!
