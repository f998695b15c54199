use mc_discord_bot::events::carpet::events as carpet_events;
use mc_discord_bot::events::kinds::EventKind;
use mc_discord_bot::events::{base_events, enabled_events, process_line, server_exit};
use mc_discord_bot::events::join_game::add_player;
use mc_discord_bot::events::leave_game::remove_player;
use mc_discord_bot::pattern::{group, regex_captures};
use mc_discord_bot::state::BotState;
use mc_discord_bot::types::player::Player;
use mc_discord_bot::types::response::{DiscordEvents, Response};

fn describe(r: &Response) -> Vec<String> {
    let mut out: Vec<String> = r
        .discord
        .iter()
        .map(|e| match e {
            DiscordEvents::TextEvent(t) => format!("text:{}", t),
            DiscordEvents::RefreshData => "refresh".to_string(),
            DiscordEvents::StopData => "stop".to_string(),
            DiscordEvents::Exit => "exit".to_string(),
        })
        .collect();
    out.extend(r.server.iter().map(|s| format!("server:{}", s)));
    out
}

fn run(state: &mut BotState, line: &str) -> Vec<Vec<String>> {
    let events = base_events();
    process_line(state, &events, line).unwrap().iter().map(describe).collect()
}

fn names(state: &BotState) -> Vec<(String, bool, bool)> {
    state.players.iter().map(|p| (p.name.clone(), p.online, p.bot)).collect()
}

#[test]
fn base_events_in_order() {
    let names: Vec<&str> = base_events().iter().map(|e| e.name()).collect();
    assert_eq!(
        names,
        vec!["server_start", "join_game", "leave_game", "chat_message", "advancement", "bot_join"]
    );
    assert!(carpet_events() == vec![EventKind::BotJoin]);
}

#[test]
fn disabled_events_are_left_out() {
    let disabled = vec!["chat_message".to_string(), "nothing".to_string()];
    let names: Vec<&str> =
        enabled_events(&base_events(), &disabled).iter().map(|e| e.name()).collect();
    assert_eq!(names, vec!["server_start", "join_game", "leave_game", "advancement", "bot_join"]);
}

#[test]
fn server_start_line() {
    let mut s = BotState::new();
    let r = run(&mut s, "[10:00:00] [Server thread/INFO]: Done (3.512s)! For help, type \"help\"");
    assert_eq!(r, vec![vec!["text::sparkles: Server started (3.512s)".to_string(), "refresh".to_string()]]);
    assert!(s.server_on);
}

#[test]
fn join_and_leave_lines() {
    let mut s = BotState::new();
    let r = run(&mut s, "[10:00:00] [Server thread/INFO]: Steve joined the game");
    assert_eq!(r, vec![vec!["text::green_circle: **Steve** joined the game".to_string(), "refresh".to_string()]]);
    assert_eq!(names(&s), vec![("Steve".to_string(), true, false)]);
    let r = run(&mut s, "[10:05:00] [Server thread/INFO]: Steve left the game");
    assert_eq!(r, vec![vec!["text::red_circle: **Steve** left the game".to_string(), "refresh".to_string()]]);
    assert!(s.players.is_empty());
}

#[test]
fn chat_line() {
    let mut s = BotState::new();
    let r = run(&mut s, "[10:00:00] [Server thread/INFO]: <Steve> hello there");
    assert_eq!(r, vec![vec!["text::speech_left: **Steve** » hello there".to_string()]]);
    assert!(s.players.is_empty());
}

#[test]
fn advancement_line() {
    let mut s = BotState::new();
    let r = run(&mut s, "[10:00:00] [Server thread/INFO]: Steve has made the advancement [Stone Age]");
    assert_eq!(r, vec![vec!["text::dvd: **Steve** has completed the advancement **Stone Age**".to_string()]]);
    let r = run(&mut s, "[10:00:00] [Server thread/INFO]: Alex has completed the challenge [Monster Hunter]");
    assert_eq!(r, vec![vec!["text::dvd: **Alex** has completed the challenge **Monster Hunter**".to_string()]]);
}

#[test]
fn carpet_bot_login_then_join() {
    let mut s = BotState::new();
    let r = run(&mut s, "[10:00:00] [Server thread/INFO]: Bot1[local] logged in with entity id 42 at (0.5, 64.0, 0.5)");
    assert_eq!(r, vec![Vec::<String>::new()]);
    assert_eq!(names(&s), vec![("Bot1".to_string(), false, true)]);
    let r = run(&mut s, "[10:00:00] [Server thread/INFO]: Bot1 joined the game");
    assert_eq!(r, vec![vec!["text::green_circle: :robot: **Bot1** joined the game".to_string(), "refresh".to_string()]]);
    assert_eq!(names(&s), vec![("Bot1".to_string(), true, true)]);
}

#[test]
fn unmatched_line_changes_nothing() {
    let mut s = BotState::new();
    s.players.push(Player::new("Steve".to_string()));
    let r = run(&mut s, "[10:00:00] [Server thread/INFO]: Preparing spawn area: 83%");
    assert!(r.is_empty());
    assert_eq!(names(&s), vec![("Steve".to_string(), true, false)]);
    assert!(!s.server_on);
}

#[test]
fn server_exit_normal_and_crash() {
    let mut s = BotState::new();
    s.server_on = true;
    let r = server_exit(&mut s, 0);
    assert_eq!(describe(&r), vec!["text::x: Server stoped", "stop", "exit"]);
    assert!(!s.server_on);
    s.server_on = true;
    let r = server_exit(&mut s, -9);
    assert_eq!(describe(&r), vec!["text::fire: Server crahsed (-9)", "stop", "exit"]);
    assert!(!s.server_on);
    let r = server_exit(&mut s, 137);
    assert_eq!(describe(&r)[0], "text::fire: Server crahsed (137)");
}

#[test]
fn add_player_cases() {
    let mut ps: Vec<Player> = Vec::new();
    assert!(!add_player(&mut ps, "Steve".to_string()));
    assert!(!add_player(&mut ps, "Steve".to_string()));
    assert_eq!(ps.len(), 1);
    ps.push(Player { name: "Bot1".to_string(), online: false, bot: true });
    assert!(add_player(&mut ps, "Bot1".to_string()));
    assert!(ps[1].online);
    assert!(add_player(&mut ps, "Bot1".to_string()));
    assert_eq!(ps.len(), 2);
}

#[test]
fn join_twice_is_join_once() {
    let mut a: Vec<Player> = vec![Player { name: "Bot1".to_string(), online: false, bot: true }];
    let first = add_player(&mut a, "Bot1".to_string());
    let after_one: Vec<(String, bool, bool)> = a.iter().map(|p| (p.name.clone(), p.online, p.bot)).collect();
    let second = add_player(&mut a, "Bot1".to_string());
    let after_two: Vec<(String, bool, bool)> = a.iter().map(|p| (p.name.clone(), p.online, p.bot)).collect();
    assert_eq!(first, second);
    assert_eq!(after_one, after_two);
}

#[test]
fn leave_undoes_join() {
    let mut ps: Vec<Player> = vec![Player::new("Alex".to_string())];
    add_player(&mut ps, "Steve".to_string());
    remove_player(&mut ps, &"Steve".to_string());
    assert_eq!(ps.len(), 1);
    assert_eq!(ps[0].name, "Alex");
}

#[test]
fn remove_player_removes_every_entry_of_a_name() {
    let mut ps: Vec<Player> = vec![
        Player::new("A".to_string()),
        Player { name: "B".to_string(), online: false, bot: true },
        Player::new("B".to_string()),
        Player::new("C".to_string()),
    ];
    remove_player(&mut ps, &"B".to_string());
    let left: Vec<&str> = ps.iter().map(|p| p.name.as_str()).collect();
    assert_eq!(left, vec!["A", "C"]);
}

#[test]
fn regex_wrapper_reports_groups_and_errors() {
    let caps = regex_captures(r"(\w+)(-)?(\d+)", "ab12").unwrap().unwrap();
    assert_eq!(caps, vec![Some("ab12".to_string()), Some("ab1".to_string()), None, Some("2".to_string())]);
    assert_eq!(group(&caps, 1), Some("ab1".to_string()));
    assert_eq!(group(&caps, 2), None);
    assert_eq!(group(&caps, 9), None);
    assert!(regex_captures(r"x", "abc").unwrap().is_none());
    assert!(regex_captures(r"(", "abc").is_err());
}
