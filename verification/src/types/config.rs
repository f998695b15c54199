use vstd::prelude::*;

use crate::text::{lowercase_of, owned, split, split_spec, trim, trim_spec};
use simple_config_parser::Config as Cfg;
use simple_config_parser::ConfigError as CfgError;

verus! {

/// The configuration type of `simple_config_parser`: the key and value
/// pairs read from a configuration file.
#[verifier::external_type_specification]
#[verifier::external_body]
pub struct ExCfg(Cfg);

/// The error type of `simple_config_parser`.
#[verifier::external_type_specification]
#[verifier::external_body]
pub struct ExCfgError(CfgError);

/// The entries of a `simple_config_parser::Config`, in file order: each a
/// lowercase key without spaces and its value.
pub uninterp spec fn cfg_entries(cfg: Cfg) -> Seq<Seq<Seq<char>>>;

/// The value of the last entry of `entries` whose key is `key`.
pub open spec fn last_value(entries: Seq<Seq<Seq<char>>>, key: Seq<char>) -> Option<Seq<char>>
    decreases entries.len(),
{
    if entries.len() == 0 {
        None
    } else if entries.last()[0] == key {
        Some(entries.last()[1])
    } else {
        last_value(entries.drop_last(), key)
    }
}

/// The value of the ASCII decimal digits `d`.
pub open spec fn digits_value(d: Seq<char>) -> nat
    decreases d.len(),
{
    if d.len() == 0 {
        0
    } else {
        digits_value(d.drop_last()) * 10 + ((d.last() as int) - 48) as nat
    }
}

/// What `str::parse::<u64>` gives for `s`: the value of an optional `+`
/// followed by one or more ASCII digits, when it fits in a `u64`.
pub open spec fn u64_text_value(s: Seq<char>) -> Option<u64> {
    let d = if s.len() > 0 && s[0] == '+' {
        s.drop_first()
    } else {
        s
    };
    if d.len() > 0 && (forall|i: int| 0 <= i < d.len() ==> '0' <= #[trigger] d[i] <= '9')
        && digits_value(d) <= u64::MAX {
        Some(digits_value(d) as u64)
    } else {
        None
    }
}

/// The text that a configuration holds for `key`: keys are looked up in
/// lowercase, the last entry wins.
pub open spec fn config_text(entries: Seq<Seq<Seq<char>>>, key: Seq<char>) -> Option<Seq<char>> {
    last_value(entries, lowercase_of(key))
}

/// The number that a configuration holds for `key`.
pub open spec fn config_number(entries: Seq<Seq<Seq<char>>>, key: Seq<char>) -> Option<u64> {
    match config_text(entries, key) {
        Some(v) => u64_text_value(v),
        None => None,
    }
}

/// The value of `key` as text.
///
/// Trusted wrapper around `simple_config_parser::Config::get_str`, whose
/// source lowercases the key with `str::to_lowercase`, walks the entries
/// from the last one and returns a copy of the first value whose key is
/// equal, or an error when there is none; the contract states that.
#[verifier::external_body]
fn cfg_get_str(cfg: &Cfg, key: &str) -> (res: Result<
    String,
    CfgError,
>)
    ensures
        match res {
            Ok(v) => config_text(cfg_entries(*cfg), key@) == Some(v@),
            Err(_) => config_text(cfg_entries(*cfg), key@) is None,
        },
{
    cfg.get_str(key)
}

/// The value of `key` as a `u64`.
///
/// Trusted wrapper around `simple_config_parser::Config::get::<u64>`, whose
/// source finds the value as `get_str` does and parses it with
/// `str::parse`; the contract states that, with the syntax that the
/// documentation of `u64::from_str` gives (an optional `+`, then digits,
/// no overflow).
#[verifier::external_body]
fn cfg_get_u64(cfg: &Cfg, key: &str) -> (res: Result<
    u64,
    CfgError,
>)
    ensures
        match res {
            Ok(n) => config_number(cfg_entries(*cfg), key@) == Some(n),
            Err(_) => config_number(cfg_entries(*cfg), key@) is None,
        },
{
    cfg.get::<u64>(key)
}

/// The raw entries of a configuration.
///
/// Trusted wrapper that moves the public field `data` out of a
/// `simple_config_parser::Config`; the contract states that it holds the
/// configuration's entries.
#[verifier::external_body]
fn cfg_data(cfg: Cfg) -> (res: Vec<[String; 2]>)
    ensures
        res.deep_view() == cfg_entries(cfg),
{
    cfg.data
}

/// A configuration value that is missing, or is not a number where one is
/// needed.
#[derive(Debug)]
pub struct ConfigValueError {
    /// The key of the value.
    pub key: String,
}

/// The list items of a comma separated value, each without surrounding
/// whitespace.
pub open spec fn string_arr_spec(s: Seq<char>) -> Seq<Seq<char>> {
    split_spec(s, ',').map_values(|p: Seq<char>| trim_spec(p))
}

/// The items of a comma separated list, trimmed.
pub fn parse_string_arr(str: String) -> (res: Vec<String>)
    ensures
        res.deep_view() == string_arr_spec(str@),
{
    let parts = split(str.as_str(), ',');
    let mut res: Vec<String> = Vec::new();
    let mut i: usize = 0;
    while i < parts.len()
        invariant
            i <= parts.len(),
            parts.deep_view() == split_spec(str@, ','),
            res.deep_view() == parts.deep_view().take(i as int).map_values(
                |p: Seq<char>| trim_spec(p),
            ),
        decreases parts.len() - i,
    {
        let t = trim(parts[i].as_str());
        let ghost before = res.deep_view();
        res.push(t);
        assert(res.deep_view() =~= before.push(t@));
        assert(parts.deep_view().take(i + 1).map_values(|p: Seq<char>| trim_spec(p))
            =~= parts.deep_view().take(i as int).map_values(|p: Seq<char>| trim_spec(p)).push(
            trim_spec(parts.deep_view()[i as int]),
        ));
        i += 1;
    }
    assert(parts.deep_view().take(parts.len() as int) == parts.deep_view());
    res
}

fn get_text(cfg: &Cfg, key: &str) -> (res: Result<
    String,
    ConfigValueError,
>)
    ensures
        match res {
            Ok(v) => config_text(cfg_entries(*cfg), key@) == Some(v@),
            Err(e) => config_text(cfg_entries(*cfg), key@) is None && e.key@ == key@,
        },
{
    match cfg_get_str(cfg, key) {
        Ok(v) => Ok(v),
        Err(_) => Err(ConfigValueError { key: owned(key) }),
    }
}

fn get_number(cfg: &Cfg, key: &str) -> (res: Result<
    u64,
    ConfigValueError,
>)
    ensures
        match res {
            Ok(n) => config_number(cfg_entries(*cfg), key@) == Some(n),
            Err(e) => config_number(cfg_entries(*cfg), key@) is None && e.key@ == key@,
        },
{
    match cfg_get_u64(cfg, key) {
        Ok(n) => Ok(n),
        Err(_) => Err(ConfigValueError { key: owned(key) }),
    }
}

/// The settings of the Discord side of the bot.
pub struct BotConfig {
    pub token: String,
    pub data_channel: u64,
    pub event_channel: u64,
    pub command_prefix: String,
    pub message_id_path: String,
    pub disabled_commands: Vec<String>,
}

/// The mathematical value of a `BotConfig`.
pub ghost struct BotConfigView {
    pub token: Seq<char>,
    pub data_channel: u64,
    pub event_channel: u64,
    pub command_prefix: Seq<char>,
    pub message_id_path: Seq<char>,
    pub disabled_commands: Seq<Seq<char>>,
}

impl View for BotConfig {
    type V = BotConfigView;

    open spec fn view(&self) -> BotConfigView {
        BotConfigView {
            token: self.token@,
            data_channel: self.data_channel,
            event_channel: self.event_channel,
            command_prefix: self.command_prefix@,
            message_id_path: self.message_id_path@,
            disabled_commands: self.disabled_commands.deep_view(),
        }
    }
}

/// The Discord settings that the entries `e` give, or the first key
/// (`bot_token`, `bot_data_channel`, `bot_event_channel`,
/// `bot_command_prefix`, `data_message_id_file`, `bot_disabled_commands`,
/// in that order) whose value is missing or not a number where one is
/// needed.
pub open spec fn bot_config_spec(e: Seq<Seq<Seq<char>>>) -> Result<BotConfigView, Seq<char>> {
    match config_text(e, "bot_token"@) {
        None => Err("bot_token"@),
        Some(token) => match config_number(e, "bot_data_channel"@) {
            None => Err("bot_data_channel"@),
            Some(data_channel) => match config_number(e, "bot_event_channel"@) {
                None => Err("bot_event_channel"@),
                Some(event_channel) => match config_text(e, "bot_command_prefix"@) {
                    None => Err("bot_command_prefix"@),
                    Some(command_prefix) => match config_text(e, "data_message_id_file"@) {
                        None => Err("data_message_id_file"@),
                        Some(message_id_path) => match config_text(e, "bot_disabled_commands"@) {
                            None => Err("bot_disabled_commands"@),
                            Some(disabled) => Ok(
                                BotConfigView {
                                    token,
                                    data_channel,
                                    event_channel,
                                    command_prefix,
                                    message_id_path,
                                    disabled_commands: string_arr_spec(disabled),
                                },
                            ),
                        },
                    },
                },
            },
        },
    }
}

impl BotConfig {
    /// Reads the Discord settings from the configuration.
    pub fn new(cfg: &Cfg) -> (res: Result<Self, ConfigValueError>)
        ensures
            match res {
                Ok(b) => bot_config_spec(cfg_entries(*cfg)) == Ok::<BotConfigView, Seq<char>>(b@),
                Err(err) => bot_config_spec(cfg_entries(*cfg)) == Err::<BotConfigView, Seq<char>>(
                    err.key@,
                ),
            },
    {
        let token = match get_text(cfg, "bot_token") {
            Ok(v) => v,
            Err(err) => return Err(err),
        };
        let data_channel = match get_number(cfg, "bot_data_channel") {
            Ok(v) => v,
            Err(err) => return Err(err),
        };
        let event_channel = match get_number(cfg, "bot_event_channel") {
            Ok(v) => v,
            Err(err) => return Err(err),
        };
        let command_prefix = match get_text(cfg, "bot_command_prefix") {
            Ok(v) => v,
            Err(err) => return Err(err),
        };
        let message_id_path = match get_text(cfg, "data_message_id_file") {
            Ok(v) => v,
            Err(err) => return Err(err),
        };
        let disabled = match get_text(cfg, "bot_disabled_commands") {
            Ok(v) => v,
            Err(err) => return Err(err),
        };
        Ok(
            BotConfig {
                token,
                data_channel,
                event_channel,
                command_prefix,
                message_id_path,
                disabled_commands: parse_string_arr(disabled),
            },
        )
    }
}

/// The settings of the Minecraft server.
pub struct MinecraftConfig {
    pub dir: String,
    pub java_path: String,
    pub start_cmd: String,
    pub disabled_events: Vec<String>,
}

/// The mathematical value of a `MinecraftConfig`.
pub ghost struct MinecraftConfigView {
    pub dir: Seq<char>,
    pub java_path: Seq<char>,
    pub start_cmd: Seq<char>,
    pub disabled_events: Seq<Seq<char>>,
}

impl View for MinecraftConfig {
    type V = MinecraftConfigView;

    open spec fn view(&self) -> MinecraftConfigView {
        MinecraftConfigView {
            dir: self.dir@,
            java_path: self.java_path@,
            start_cmd: self.start_cmd@,
            disabled_events: self.disabled_events.deep_view(),
        }
    }
}

/// The server settings that the entries `e` give, or the first missing key
/// (`mc_dir`, `mc_java_path`, `mc_start_cmd`, `mc_disabled_events`, in that
/// order).
pub open spec fn minecraft_config_spec(e: Seq<Seq<Seq<char>>>) -> Result<
    MinecraftConfigView,
    Seq<char>,
> {
    match config_text(e, "mc_dir"@) {
        None => Err("mc_dir"@),
        Some(dir) => match config_text(e, "mc_java_path"@) {
            None => Err("mc_java_path"@),
            Some(java_path) => match config_text(e, "mc_start_cmd"@) {
                None => Err("mc_start_cmd"@),
                Some(start_cmd) => match config_text(e, "mc_disabled_events"@) {
                    None => Err("mc_disabled_events"@),
                    Some(disabled) => Ok(
                        MinecraftConfigView {
                            dir,
                            java_path,
                            start_cmd,
                            disabled_events: string_arr_spec(disabled),
                        },
                    ),
                },
            },
        },
    }
}

impl MinecraftConfig {
    /// Reads the server settings from the configuration.
    pub fn new(cfg: &Cfg) -> (res: Result<Self, ConfigValueError>)
        ensures
            match res {
                Ok(m) => minecraft_config_spec(cfg_entries(*cfg)) == Ok::<
                    MinecraftConfigView,
                    Seq<char>,
                >(m@),
                Err(err) => minecraft_config_spec(cfg_entries(*cfg)) == Err::<
                    MinecraftConfigView,
                    Seq<char>,
                >(err.key@),
            },
    {
        let dir = match get_text(cfg, "mc_dir") {
            Ok(v) => v,
            Err(err) => return Err(err),
        };
        let java_path = match get_text(cfg, "mc_java_path") {
            Ok(v) => v,
            Err(err) => return Err(err),
        };
        let start_cmd = match get_text(cfg, "mc_start_cmd") {
            Ok(v) => v,
            Err(err) => return Err(err),
        };
        let disabled = match get_text(cfg, "mc_disabled_events") {
            Ok(v) => v,
            Err(err) => return Err(err),
        };
        Ok(MinecraftConfig { dir, java_path, start_cmd, disabled_events: parse_string_arr(disabled) })
    }
}

/// The whole configuration of the bot.
pub struct Config {
    pub raw_data: Vec<[String; 2]>,
    pub bot: BotConfig,
    pub minecraft: MinecraftConfig,
}

impl Config {
    /// Reads the settings from a parsed configuration file, keeping its raw
    /// entries too; fails with the first missing or malformed key, the
    /// Discord settings being read first.
    pub fn new(cfg: Cfg) -> (res: Result<Self, ConfigValueError>)
        ensures
            match res {
                Ok(c) => {
                    &&& bot_config_spec(cfg_entries(cfg)) == Ok::<BotConfigView, Seq<char>>(c.bot@)
                    &&& minecraft_config_spec(cfg_entries(cfg)) == Ok::<
                        MinecraftConfigView,
                        Seq<char>,
                    >(c.minecraft@)
                    &&& c.raw_data.deep_view() == cfg_entries(cfg)
                },
                Err(err) => match bot_config_spec(cfg_entries(cfg)) {
                    Err(key) => err.key@ == key,
                    Ok(_) => minecraft_config_spec(cfg_entries(cfg)) == Err::<
                        MinecraftConfigView,
                        Seq<char>,
                    >(err.key@),
                },
            },
    {
        let bot = match BotConfig::new(&cfg) {
            Ok(b) => b,
            Err(err) => return Err(err),
        };
        let minecraft = match MinecraftConfig::new(&cfg) {
            Ok(m) => m,
            Err(err) => return Err(err),
        };
        Ok(Config { raw_data: cfg_data(cfg), bot, minecraft })
    }
}

} // verus!
