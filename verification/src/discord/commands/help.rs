use vstd::prelude::*;

use super::{
    first_named_at, lemma_find_command_first, command_help_spec, find_command, find_command_spec, Command, CommandKind, Embed, EmbedView,
    command_description_spec, command_name_spec,
};
use crate::discord::misc::{command_parts, command_parts_spec};
use crate::text::{decimal, decimal_spec, lowercase_of, owned, push_char, to_lowercase};

verus! {

/// Lists the commands, or explains one of them.
pub struct Help;

impl Command for Help {
    fn name(&self) -> (res: &'static str)
        ensures
            res@ == "help"@,
    {
        "help"
    }

    fn help(&self) -> (res: &'static str)
        ensures
            res@ == "help [command]"@,
    {
        "help [command]"
    }

    fn description(&self) -> (res: &'static str)
        ensures
            res@ == "Get a list of all commands or get specific deatils on one"@,
    {
        "Get a list of all commands or get specific deatils on one"
    }
}

/// One line per command: the prefix and how the command is used.
pub open spec fn help_lines(prefix: Seq<char>, commands: Seq<CommandKind>) -> Seq<char>
    decreases commands.len(),
{
    if commands.len() == 0 {
        Seq::empty()
    } else {
        help_lines(prefix, commands.drop_last()) + prefix + command_help_spec(commands.last())
            + seq!['\n']
    }
}

/// The embed that lists all commands.
pub open spec fn help_overview_spec(prefix: Seq<char>, commands: Seq<CommandKind>) -> EmbedView {
    EmbedView {
        title: "Commands ["@ + decimal_spec(commands.len()) + "]"@,
        description: "```\n"@ + ("\u{200b}"@ + help_lines(prefix, commands)) + "```"@,
    }
}

/// The embed that explains command `c`.
pub open spec fn help_detail_spec(prefix: Seq<char>, c: CommandKind) -> EmbedView {
    EmbedView {
        title: "Help: "@ + command_name_spec(c),
        description: command_description_spec(c) + "\nUsage: `"@ + prefix + command_help_spec(c)
            + "`"@,
    }
}

/// The answer to the help command in `content`: the list of all commands
/// when no command is named, the explanation of the named command (matched
/// in lowercase), and nothing when no command has that name.
pub open spec fn help_reply_spec(
    content: Seq<char>,
    prefix: Seq<char>,
    commands: Seq<CommandKind>,
) -> Option<EmbedView> {
    let parts = command_parts_spec(content, prefix);
    if parts.len() <= 1 {
        Some(help_overview_spec(prefix, commands))
    } else {
        match find_command_spec(commands, lowercase_of(parts[1])) {
            Some(c) => Some(help_detail_spec(prefix, c)),
            None => None,
        }
    }
}

/// When the help command names a command (in any case), the reply explains
/// the first command of the list with that name, whichever its place in the
/// list.
pub proof fn lemma_help_explains_named_command(
    content: Seq<char>,
    prefix: Seq<char>,
    commands: Seq<CommandKind>,
    i: int,
)
    requires
        command_parts_spec(content, prefix).len() >= 2,
        first_named_at(commands, lowercase_of(command_parts_spec(content, prefix)[1]), i),
    ensures
        help_reply_spec(content, prefix, commands) == Some(help_detail_spec(prefix, commands[i])),
{
    lemma_find_command_first(commands, lowercase_of(command_parts_spec(content, prefix)[1]));
}

/// When the help command names no command, there is no reply; when it names
/// nothing, the reply lists the commands.
pub proof fn lemma_help_other_replies(content: Seq<char>, prefix: Seq<char>, commands: Seq<CommandKind>)
    ensures
        command_parts_spec(content, prefix).len() <= 1 ==> help_reply_spec(content, prefix, commands)
            == Some(help_overview_spec(prefix, commands)),
        command_parts_spec(content, prefix).len() >= 2 && (forall|i: int|
            0 <= i < commands.len() ==> command_name_spec(#[trigger] commands[i]) != lowercase_of(
                command_parts_spec(content, prefix)[1],
            )) ==> help_reply_spec(content, prefix, commands) is None,
{
    if command_parts_spec(content, prefix).len() >= 2 {
        lemma_find_command_first(commands, lowercase_of(command_parts_spec(content, prefix)[1]));
    }
}

impl Help {
    /// The answer to the help command in the message `content`.
    pub fn reply(&self, content: &str, prefix: &str, commands: &Vec<CommandKind>) -> (res: Option<
        Embed,
    >)
        requires
            prefix@.len() <= content@.len(),
            content@.take(prefix@.len() as int) == prefix@,
        ensures
            match res {
                Some(e) => help_reply_spec(content@, prefix@, commands@) == Some(e@),
                None => help_reply_spec(content@, prefix@, commands@) is None,
            },
    {
        let parts = command_parts(content, prefix);
        if parts.len() <= 1 {
            let mut lines = owned("\u{200b}");
            let mut i: usize = 0;
            while i < commands.len()
                invariant
                    i <= commands.len(),
                    lines@ == "\u{200b}"@ + help_lines(prefix@, commands@.take(i as int)),
                decreases commands.len() - i,
            {
                assert(commands@.take(i + 1).drop_last() == commands@.take(i as int));
                lines.append(prefix);
                lines.append(commands[i].help());
                push_char(&mut lines, '\n');
                i += 1;
            }
            assert(commands@.take(commands.len() as int) == commands@);
            let mut title = owned("Commands [");
            let count = decimal(commands.len() as u64);
            title.append(count.as_str());
            title.append("]");
            let mut description = owned("```\n");
            description.append(lines.as_str());
            description.append("```");
            return Some(Embed { title, description });
        }
        assert(parts.deep_view()[1] == parts@[1]@);
        let name = to_lowercase(parts[1].as_str());
        match find_command(commands, name.as_str()) {
            Some(c) => {
                let mut title = owned("Help: ");
                title.append(c.name());
                let mut description = owned(c.description());
                description.append("\nUsage: `");
                description.append(prefix);
                description.append(c.help());
                description.append("`");
                Some(Embed { title, description })
            },
            None => None,
        }
    }
}

} // verus!
