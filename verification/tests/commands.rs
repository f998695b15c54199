use mc_discord_bot::discord::commands::about::About;
use mc_discord_bot::discord::commands::help::Help;
use mc_discord_bot::discord::commands::player::{Player as PlayerCommand, PlayerOutcome};
use mc_discord_bot::discord::commands::refresh::Refresh;
use mc_discord_bot::discord::commands::{
    base_commands, enabled_commands, find_command, route_message, CommandKind, Route,
};
use mc_discord_bot::discord::misc::{command_parts, player_list_text};
use mc_discord_bot::types::player::Player;
use mc_discord_bot::types::response::DiscordEvents;

#[test]
fn command_parts_split_after_prefix() {
    assert_eq!(command_parts("!player Steve spawn", "!"), vec!["player", "Steve", "spawn"]);
    assert_eq!(command_parts("!!help", "!!"), vec!["help"]);
    assert_eq!(command_parts("!a  b", "!"), vec!["a", "", "b"]);
}

#[test]
fn command_metadata() {
    let names: Vec<&str> = base_commands().iter().map(|c| c.name()).collect();
    assert_eq!(names, vec!["about", "refresh", "help", "player"]);
    assert_eq!(CommandKind::Help.help(), "help [command]");
    assert_eq!(CommandKind::Refresh.description(), "Refreshes data embed");
    assert!(CommandKind::Player.needs_server());
    assert!(!CommandKind::About.needs_server());
    assert!(!CommandKind::Help.needs_server());
}

#[test]
fn disabled_commands_are_left_out() {
    let disabled = vec!["refresh".to_string()];
    let names: Vec<&str> =
        enabled_commands(&base_commands(), &disabled).iter().map(|c| c.name()).collect();
    assert_eq!(names, vec!["about", "help", "player"]);
    assert!(find_command(&base_commands(), "help") == Some(CommandKind::Help));
    assert!(find_command(&base_commands(), "Help").is_none());
}

#[test]
fn routing_messages() {
    let cmds = base_commands();
    assert!(matches!(route_message("hello", "!", &cmds), Route::Ignore));
    assert!(matches!(route_message("!help me", "!", &cmds), Route::Run(CommandKind::Help)));
    assert!(matches!(route_message("!player", "!", &cmds), Route::Run(CommandKind::Player)));
    match route_message("!halp", "!", &cmds) {
        Route::Unknown(w) => assert_eq!(w, "halp"),
        _ => panic!("expected an unknown command"),
    }
}

#[test]
fn help_lists_all_commands() {
    let e = Help.reply("!help", "!", &base_commands()).unwrap();
    assert_eq!(e.title, "Commands [4]");
    assert_eq!(
        e.description,
        "```\n\u{200b}!about\n!refresh\n!help [command]\n!player <name> (spawn|kill) [at X X X] [facing X X] [in X]\n```"
    );
}

#[test]
fn help_explains_one_command() {
    let e = Help.reply("!help PLAYER", "!", &base_commands()).unwrap();
    assert_eq!(e.title, "Help: player");
    assert_eq!(
        e.description,
        "Runs carpet player actions on the server\nUsage: `!player <name> (spawn|kill) [at X X X] [facing X X] [in X]`"
    );
    assert!(Help.reply("!help nope", "!", &base_commands()).is_none());
}

#[test]
fn about_and_refresh_replies() {
    let e = About.reply("1.2.3");
    assert_eq!(e.title, "About");
    assert_eq!(e.description, "Version: 1.2.3\nMade by: Sigma#8214");
    let r = Refresh.reply();
    assert!(matches!(r.discord.as_slice(), [DiscordEvents::RefreshData]));
    assert!(r.server.is_empty());
}

fn server_line(content: &str) -> String {
    match PlayerCommand.reply("!", content).unwrap() {
        PlayerOutcome::Command(r) => {
            assert!(r.discord.is_empty());
            assert_eq!(r.server.len(), 1);
            r.server[0].clone()
        }
        PlayerOutcome::Invalid(t) => panic!("unexpected invalid reply: {}", t),
    }
}

#[test]
fn player_spawn_with_defaults() {
    assert_eq!(
        server_line("!player Steve spawn"),
        "/player Steve spawn at ~ ~ ~ facing 0 0 in minecraft:overworld\n"
    );
}

#[test]
fn player_spawn_with_position_facing_and_dimension() {
    assert_eq!(
        server_line("!player Steve  spawn at 1 64 -3 facing 90 0 in minecraft:the_nether"),
        "/player Steve spawn at 1 64 -3 facing 90 0 in minecraft:the_nether\n"
    );
    assert_eq!(
        server_line("!player Steve spawn at 1.5 2 3"),
        "/player Steve spawn at 1.5 2 3 facing 0 0 in minecraft:overworld\n"
    );
}

#[test]
fn player_kill() {
    assert_eq!(server_line("!player Steve kill"), "/player Steve kill\n");
}

#[test]
fn player_invalid_arguments() {
    match PlayerCommand.reply("!", "!player Steve").unwrap() {
        PlayerOutcome::Invalid(t) => assert_eq!(
            t,
            "This command used the following arg structure: `player <name> (spawn|kill) [at X X X] [facing X X] [in X]`"
        ),
        PlayerOutcome::Command(_) => panic!("expected an invalid reply"),
    }
}

#[test]
fn player_list_sorts_real_players_first() {
    let players = vec![
        Player::new("Bob".to_string()),
        Player { name: "Zed".to_string(), online: true, bot: true },
        Player::new("alice".to_string()),
        Player { name: "Carl".to_string(), online: false, bot: false },
        Player { name: "Abot".to_string(), online: true, bot: true },
        Player { name: "Idle".to_string(), online: false, bot: true },
    ];
    assert_eq!(
        player_list_text(&players),
        "```\u{200b}alice\nBob\n:robot: Abot\n:robot: Zed\n```"
    );
}

#[test]
fn player_list_keeps_list_order_for_equal_names() {
    let players = vec![Player::new("bob".to_string()), Player::new("BOB".to_string())];
    assert_eq!(player_list_text(&players), "```\u{200b}bob\nBOB\n```");
    let players = vec![Player::new("BOB".to_string()), Player::new("bob".to_string())];
    assert_eq!(player_list_text(&players), "```\u{200b}BOB\nbob\n```");
    assert_eq!(player_list_text(&Vec::new()), "```\u{200b}```");
}
