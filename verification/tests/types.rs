use mc_discord_bot::discord::{DiscordEvent, DiscordEvents};
use mc_discord_bot::types::player::Player;
use mc_discord_bot::types::response::Response;

fn texts(events: &[DiscordEvents]) -> Vec<String> {
    events
        .iter()
        .map(|e| match e {
            DiscordEvents::TextEvent(t) => format!("text:{}", t),
            DiscordEvents::RefreshData => "refresh".to_string(),
            DiscordEvents::StopData => "stop".to_string(),
            DiscordEvents::Exit => "exit".to_string(),
        })
        .collect()
}

#[test]
fn player_new_is_online_real_player() {
    let p = Player::new("Steve".to_string());
    assert_eq!(p.name, "Steve");
    assert!(p.online);
    assert!(!p.bot);
}

#[test]
fn player_display_marks_bots() {
    let p = Player::new("Steve".to_string());
    assert_eq!(p.to_display(), "Steve");
    let b = Player { name: "Bot1".to_string(), online: true, bot: true };
    assert_eq!(b.to_display(), ":robot: Bot1");
}

#[test]
fn player_copy_keeps_fields() {
    let b = Player { name: "Bot1".to_string(), online: false, bot: true };
    let c = b.copy();
    assert_eq!(c.name, "Bot1");
    assert!(!c.online);
    assert!(c.bot);
}

#[test]
fn response_new_is_empty() {
    let r = Response::new();
    assert!(r.discord.is_empty());
    assert!(r.server.is_empty());
}

#[test]
fn response_builders_append_in_order() {
    let r = Response::new()
        .discord_text("hello")
        .discord_refresh_data()
        .server_command("say hi\n")
        .discord_stop_data()
        .async_exit()
        .server_command("stop\n");
    assert_eq!(texts(&r.discord), vec!["text:hello", "refresh", "stop", "exit"]);
    assert_eq!(r.server, vec!["say hi\n".to_string(), "stop\n".to_string()]);
}

#[test]
fn discord_event_builders_append_in_order() {
    let e = DiscordEvent::new().text("a").refresh_data().stop_data().exit();
    assert_eq!(texts(&e.events), vec!["text:a", "refresh", "stop", "exit"]);
    assert!(DiscordEvent::new().events.is_empty());
}
