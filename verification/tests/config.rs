use mc_discord_bot::types::config::{BotConfig, Config, MinecraftConfig};
use simple_config_parser::Config as Cfg;

const FULL: &str = "bot_token = abc.def\n\
bot_data_channel = 123\n\
bot_event_channel = +456\n\
bot_command_prefix = !\n\
data_message_id_file = msg.txt\n\
bot_disabled_commands = refresh, about\n\
mc_dir = /srv/mc\n\
mc_java_path = java\n\
mc_start_cmd = -jar server.jar nogui\n\
mc_disabled_events = chat_message\n";

#[test]
fn full_config_is_read() {
    let c = Config::new(Cfg::new().text(FULL).unwrap()).unwrap();
    assert_eq!(c.bot.token, "abc.def");
    assert_eq!(c.bot.data_channel, 123);
    assert_eq!(c.bot.event_channel, 456);
    assert_eq!(c.bot.command_prefix, "!");
    assert_eq!(c.bot.message_id_path, "msg.txt");
    assert_eq!(c.bot.disabled_commands, vec!["refresh", "about"]);
    assert_eq!(c.minecraft.dir, "/srv/mc");
    assert_eq!(c.minecraft.java_path, "java");
    assert_eq!(c.minecraft.start_cmd, "-jar server.jar nogui");
    assert_eq!(c.minecraft.disabled_events, vec!["chat_message"]);
    assert_eq!(c.raw_data.len(), 10);
    assert_eq!(c.raw_data[0], ["bot_token".to_string(), "abc.def".to_string()]);
}

#[test]
fn later_entries_win_and_keys_ignore_case() {
    let text = format!("{}BOT_TOKEN = second\n", FULL);
    let c = BotConfig::new(&Cfg::new().text(text).unwrap()).unwrap();
    assert_eq!(c.token, "second");
}

#[test]
fn missing_key_is_reported() {
    let text = FULL.replace("mc_java_path = java\n", "");
    let err = MinecraftConfig::new(&Cfg::new().text(&text).unwrap()).err().unwrap();
    assert_eq!(err.key, "mc_java_path");
    let err = Config::new(Cfg::new().text(&text).unwrap()).err().unwrap();
    assert_eq!(err.key, "mc_java_path");
}

#[test]
fn bad_number_is_reported() {
    let text = FULL.replace("bot_event_channel = +456", "bot_event_channel = -4");
    let err = BotConfig::new(&Cfg::new().text(&text).unwrap()).err().unwrap();
    assert_eq!(err.key, "bot_event_channel");
    let text = FULL.replace("bot_data_channel = 123", "bot_data_channel = 18446744073709551616");
    let err = Config::new(Cfg::new().text(&text).unwrap()).err().unwrap();
    assert_eq!(err.key, "bot_data_channel");
}

#[test]
fn discord_settings_are_checked_first() {
    let text = FULL.replace("bot_token = abc.def\n", "").replace("mc_dir = /srv/mc\n", "");
    let err = Config::new(Cfg::new().text(&text).unwrap()).err().unwrap();
    assert_eq!(err.key, "bot_token");
}
