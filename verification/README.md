# mc_discord_bot

A bot that runs a Minecraft server, relays what happens on it to a Discord
channel, and lets Discord users run a few commands.

`src/` is the verified library (Verus):

- `text`: string helpers with exact contracts (whitespace, trim, split,
  decimal text, lexicographic order), and the trusted wrappers for
  `String::push` and `str::to_lowercase`.
- `pattern`: the trusted wrapper around the `regex` crate.
- `state`: the bot's state (players seen, server running) and its laws.
- `events`: what each line of the server's output does to the state and
  which response it produces.
- `discord`: command routing, the replies of the commands, the player list
  field of the data message.
- `types`: players, responses, and the configuration read through
  `simple_config_parser`.

`app/` is the program around it: configuration file, server process,
Discord client (serenity, tokio), channels and the shared state.
