use vstd::prelude::*;

use crate::discord::misc::{command_parts, command_parts_spec};
use crate::text::{contains_text, same_text, starts_with};
use about::About;
use help::Help;
use player::Player;
use refresh::Refresh;

verus! {

/// A command that Discord users can give the bot.
pub trait Command {
    /// The word that invokes the command.
    fn name(&self) -> &'static str;

    /// How the command is used.
    fn help(&self) -> &'static str;

    /// What the command does.
    fn description(&self) -> &'static str;

    /// Whether the command needs the server to be running.
    fn needs_server(&self) -> (res: bool)
        default_ensures
            !res,
    {
        false
    }
}

/// A title and a description, for a Discord embed.
pub struct Embed {
    pub title: String,
    pub description: String,
}

/// The mathematical value of an `Embed`.
pub ghost struct EmbedView {
    pub title: Seq<char>,
    pub description: Seq<char>,
}

impl View for Embed {
    type V = EmbedView;

    open spec fn view(&self) -> EmbedView {
        EmbedView { title: self.title@, description: self.description@ }
    }
}

/// The commands of the bot.
#[derive(Clone, Copy, PartialEq, Eq, Structural)]
pub enum CommandKind {
    About,
    Refresh,
    Help,
    Player,
}

/// The word that invokes a command.
pub open spec fn command_name_spec(c: CommandKind) -> Seq<char> {
    match c {
        CommandKind::About => "about"@,
        CommandKind::Refresh => "refresh"@,
        CommandKind::Help => "help"@,
        CommandKind::Player => "player"@,
    }
}

/// How a command is used.
pub open spec fn command_help_spec(c: CommandKind) -> Seq<char> {
    match c {
        CommandKind::About => "about"@,
        CommandKind::Refresh => "refresh"@,
        CommandKind::Help => "help [command]"@,
        CommandKind::Player => "player <name> (spawn|kill) [at X X X] [facing X X] [in X]"@,
    }
}

/// What a command does.
pub open spec fn command_description_spec(c: CommandKind) -> Seq<char> {
    match c {
        CommandKind::About => "Gives infomation about this *amazing* bot"@,
        CommandKind::Refresh => "Refreshes data embed"@,
        CommandKind::Help => "Get a list of all commands or get specific deatils on one"@,
        CommandKind::Player => "Runs carpet player actions on the server"@,
    }
}

impl CommandKind {
    /// The word that invokes the command.
    pub fn name(&self) -> (res: &'static str)
        ensures
            res@ == command_name_spec(*self),
    {
        match self {
            CommandKind::About => About.name(),
            CommandKind::Refresh => Refresh.name(),
            CommandKind::Help => Help.name(),
            CommandKind::Player => Player.name(),
        }
    }

    /// How the command is used.
    pub fn help(&self) -> (res: &'static str)
        ensures
            res@ == command_help_spec(*self),
    {
        match self {
            CommandKind::About => About.help(),
            CommandKind::Refresh => Refresh.help(),
            CommandKind::Help => Help.help(),
            CommandKind::Player => Player.help(),
        }
    }

    /// What the command does.
    pub fn description(&self) -> (res: &'static str)
        ensures
            res@ == command_description_spec(*self),
    {
        match self {
            CommandKind::About => About.description(),
            CommandKind::Refresh => Refresh.description(),
            CommandKind::Help => Help.description(),
            CommandKind::Player => Player.description(),
        }
    }

    /// Whether the command needs the server to be running.
    pub fn needs_server(&self) -> (res: bool)
        ensures
            res == (*self == CommandKind::Player),
    {
        match self {
            CommandKind::About => About.needs_server(),
            CommandKind::Refresh => Refresh.needs_server(),
            CommandKind::Help => Help.needs_server(),
            CommandKind::Player => Player.needs_server(),
        }
    }
}

/// The commands of the bot, in the order in which help lists them.
pub open spec fn base_commands_spec() -> Seq<CommandKind> {
    seq![CommandKind::About, CommandKind::Refresh, CommandKind::Help, CommandKind::Player]
}

/// All commands of the bot.
pub fn base_commands() -> (res: Vec<CommandKind>)
    ensures
        res@ == base_commands_spec(),
{
    let res = vec![CommandKind::About, CommandKind::Refresh, CommandKind::Help, CommandKind::Player];
    assert(res@ =~= base_commands_spec());
    res
}

/// The commands of `commands` whose name is not in `disabled`, in order.
pub open spec fn enabled_commands_spec(commands: Seq<CommandKind>, disabled: Seq<Seq<char>>) -> Seq<
    CommandKind,
>
    decreases commands.len(),
{
    if commands.len() == 0 {
        commands
    } else if disabled.contains(command_name_spec(commands.last())) {
        enabled_commands_spec(commands.drop_last(), disabled)
    } else {
        enabled_commands_spec(commands.drop_last(), disabled).push(commands.last())
    }
}

/// A command is kept exactly when it is in the list and its name is equal
/// to no item of the disabled list; with no command name disabled, the list
/// is kept whole.
pub proof fn lemma_enabled_commands(commands: Seq<CommandKind>, disabled: Seq<Seq<char>>)
    ensures
        forall|c: CommandKind|
            #[trigger] enabled_commands_spec(commands, disabled).contains(c) <==> (commands.contains(c)
                && !disabled.contains(command_name_spec(c))),
        (forall|i: int|
            0 <= i < commands.len() ==> !disabled.contains(command_name_spec(#[trigger] commands[i])))
            ==> enabled_commands_spec(commands, disabled) == commands,
    decreases commands.len(),
{
    if commands.len() > 0 {
        let rest = commands.drop_last();
        let last = commands.last();
        lemma_enabled_commands(rest, disabled);
        assert forall|c: CommandKind| #[trigger] enabled_commands_spec(commands, disabled).contains(c)
            <==> (commands.contains(c) && !disabled.contains(command_name_spec(c))) by {
            if commands.contains(c) && c != last {
                let k = choose|k: int| 0 <= k < commands.len() && commands[k] == c;
                assert(rest[k] == c);
            }
            if rest.contains(c) {
                let k = choose|k: int| 0 <= k < rest.len() && rest[k] == c;
                assert(commands[k] == c);
            }
            if c == last {
                assert(commands[commands.len() - 1] == c);
            }
            let en = enabled_commands_spec(rest, disabled);
            if !disabled.contains(command_name_spec(last)) {
                assert(en.push(last)[en.len() as int] == last);
                if en.push(last).contains(c) {
                    let k = choose|k: int| 0 <= k < en.len() + 1 && en.push(last)[k] == c;
                    if k < en.len() {
                        assert(en[k] == c);
                    }
                }
                if en.contains(c) {
                    let k = choose|k: int| 0 <= k < en.len() && en[k] == c;
                    assert(en.push(last)[k] == c);
                }
            }
        }
        if (forall|i: int|
            0 <= i < commands.len() ==> !disabled.contains(command_name_spec(#[trigger] commands[i]))) {
            assert forall|i: int| 0 <= i < rest.len() implies !disabled.contains(
                command_name_spec(#[trigger] rest[i]),
            ) by {
                assert(rest[i] == commands[i]);
            }
            assert(!disabled.contains(command_name_spec(commands[commands.len() - 1])));
            assert(rest.push(last) == commands);
        }
    }
}

/// The commands that the configuration does not disable.
pub fn enabled_commands(commands: &Vec<CommandKind>, disabled: &Vec<String>) -> (res: Vec<CommandKind>)
    ensures
        res@ == enabled_commands_spec(commands@, disabled.deep_view()),
{
    let mut res: Vec<CommandKind> = Vec::new();
    let mut i: usize = 0;
    while i < commands.len()
        invariant
            i <= commands.len(),
            res@ == enabled_commands_spec(commands@.take(i as int), disabled.deep_view()),
        decreases commands.len() - i,
    {
        assert(commands@.take(i + 1).drop_last() == commands@.take(i as int));
        let c = commands[i];
        if !contains_text(disabled, c.name()) {
            res.push(c);
        }
        i += 1;
    }
    assert(commands@.take(commands.len() as int) == commands@);
    res
}

/// The first command of `commands` invoked by `name`.
pub open spec fn find_command_spec(commands: Seq<CommandKind>, name: Seq<char>) -> Option<
    CommandKind,
>
    decreases commands.len(),
{
    if commands.len() == 0 {
        None
    } else if command_name_spec(commands[0]) == name {
        Some(commands[0])
    } else {
        find_command_spec(commands.drop_first(), name)
    }
}

/// Whether `commands[i]` is the first command of `commands` invoked by
/// `name`.
pub open spec fn first_named_at(commands: Seq<CommandKind>, name: Seq<char>, i: int) -> bool {
    &&& 0 <= i < commands.len()
    &&& command_name_spec(commands[i]) == name
    &&& forall|j: int| 0 <= j < i ==> command_name_spec(#[trigger] commands[j]) != name
}

/// The command found for `name` is the first command of the list with that
/// name, and none is found when no command has that name.
pub proof fn lemma_find_command_first(commands: Seq<CommandKind>, name: Seq<char>)
    ensures
        forall|i: int| #[trigger]
            first_named_at(commands, name, i) ==> find_command_spec(commands, name) == Some(
                commands[i],
            ),
        (forall|i: int| 0 <= i < commands.len() ==> command_name_spec(#[trigger] commands[i]) != name)
            ==> find_command_spec(commands, name) is None,
        find_command_spec(commands, name) is Some ==> exists|i: int|
            #[trigger] first_named_at(commands, name, i),
    decreases commands.len(),
{
    if commands.len() > 0 {
        let rest = commands.drop_first();
        lemma_find_command_first(rest, name);
        assert forall|i: int| #[trigger] first_named_at(commands, name, i) implies find_command_spec(
            commands,
            name,
        ) == Some(commands[i]) by {
            if i > 0 {
                assert(command_name_spec(commands[0]) != name);
                assert(first_named_at(rest, name, i - 1));
            }
        }
        if (forall|i: int| 0 <= i < commands.len() ==> command_name_spec(#[trigger] commands[i]) != name) {
            assert(command_name_spec(commands[0]) != name);
            assert forall|i: int| 0 <= i < rest.len() implies command_name_spec(#[trigger] rest[i]) != name by {
                assert(rest[i] == commands[i + 1]);
            }
        }
        if find_command_spec(commands, name) is Some {
            if command_name_spec(commands[0]) == name {
                assert(first_named_at(commands, name, 0));
            } else {
                let i = choose|i: int| #[trigger] first_named_at(rest, name, i);
                assert(commands[i + 1] == rest[i]);
                assert forall|j: int| 0 <= j < i + 1 implies command_name_spec(
                    #[trigger] commands[j],
                ) != name by {
                    if j > 0 {
                        assert(commands[j] == rest[j - 1]);
                    }
                }
                assert(first_named_at(commands, name, i + 1));
            }
        }
    }
}

/// The first command of `commands` invoked by `name`.
pub fn find_command(commands: &Vec<CommandKind>, name: &str) -> (res: Option<CommandKind>)
    ensures
        res == find_command_spec(commands@, name@),
{
    let mut i: usize = 0;
    assert(commands@.skip(0) == commands@);
    while i < commands.len()
        invariant
            i <= commands.len(),
            find_command_spec(commands@, name@) == find_command_spec(commands@.skip(i as int), name@),
        decreases commands.len() - i,
    {
        assert(commands@.skip(i as int).drop_first() == commands@.skip(i + 1));
        assert(commands@.skip(i as int)[0] == commands@[i as int]);
        if same_text(commands[i].name(), name) {
            return Some(commands[i]);
        }
        i += 1;
    }
    None
}

/// What to do with a Discord message.
pub enum Route {
    /// The message is not a command.
    Ignore,
    /// The message invokes this command.
    Run(CommandKind),
    /// The message starts with the prefix, but its first word is no command.
    Unknown(String),
}

/// The mathematical value of a `Route`.
pub ghost enum RouteView {
    Ignore,
    Run(CommandKind),
    Unknown(Seq<char>),
}

impl View for Route {
    type V = RouteView;

    open spec fn view(&self) -> RouteView {
        match self {
            Route::Ignore => RouteView::Ignore,
            Route::Run(c) => RouteView::Run(*c),
            Route::Unknown(w) => RouteView::Unknown(w@),
        }
    }
}

/// Whether `content` starts with `prefix`.
pub open spec fn has_prefix(content: Seq<char>, prefix: Seq<char>) -> bool {
    prefix.len() <= content.len() && content.take(prefix.len() as int) == prefix
}

/// What to do with the message `content`: ignore it without the command
/// prefix, else run the first of `commands` named by its first word, else
/// report that word as unknown.
pub open spec fn route_spec(content: Seq<char>, prefix: Seq<char>, commands: Seq<CommandKind>) -> RouteView {
    if !has_prefix(content, prefix) {
        RouteView::Ignore
    } else {
        let word = command_parts_spec(content, prefix)[0];
        match find_command_spec(commands, word) {
            Some(c) => RouteView::Run(c),
            None => RouteView::Unknown(word),
        }
    }
}

/// A message with the prefix runs the first command of the list named by
/// its first word, wherever that command stands in the list; a first word
/// that names no command is reported as unknown; a message without the
/// prefix is ignored.
pub proof fn lemma_route_message(content: Seq<char>, prefix: Seq<char>, commands: Seq<CommandKind>)
    ensures
        !has_prefix(content, prefix) ==> route_spec(content, prefix, commands) == RouteView::Ignore,
        forall|i: int|
            has_prefix(content, prefix) && #[trigger] first_named_at(
                commands,
                command_parts_spec(content, prefix)[0],
                i,
            ) ==> route_spec(content, prefix, commands) == RouteView::Run(commands[i]),
        has_prefix(content, prefix) && (forall|i: int|
            0 <= i < commands.len() ==> command_name_spec(#[trigger] commands[i])
                != command_parts_spec(content, prefix)[0]) ==> route_spec(content, prefix, commands)
            == RouteView::Unknown(command_parts_spec(content, prefix)[0]),
{
    lemma_find_command_first(commands, command_parts_spec(content, prefix)[0]);
}

/// What to do with a Discord message.
pub fn route_message(content: &str, prefix: &str, commands: &Vec<CommandKind>) -> (res: Route)
    ensures
        res@ == route_spec(content@, prefix@, commands@),
{
    if !starts_with(content, prefix) {
        return Route::Ignore;
    }
    let parts = command_parts(content, prefix);
    assert(parts.deep_view()[0] == parts@[0]@);
    match find_command(commands, parts[0].as_str()) {
        Some(c) => Route::Run(c),
        None => Route::Unknown(parts[0].clone()),
    }
}

} // verus!

pub mod about;
pub mod help;
pub mod player;
pub mod refresh;
