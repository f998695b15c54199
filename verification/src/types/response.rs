use vstd::prelude::*;

use crate::text::owned;

verus! {

/// Something the Discord side of the bot is asked to do.
pub enum DiscordEvents {
    /// Post a text message in the event channel.
    TextEvent(String),
    /// Rewrite the data message with the current player list.
    RefreshData,
    /// Mark the data message as stopped.
    StopData,
    /// Exit the program.
    Exit,
}

/// The mathematical value of a `DiscordEvents`.
pub ghost enum DiscordEventView {
    TextEvent(Seq<char>),
    RefreshData,
    StopData,
    Exit,
}

impl View for DiscordEvents {
    type V = DiscordEventView;

    open spec fn view(&self) -> DiscordEventView {
        match self {
            DiscordEvents::TextEvent(t) => DiscordEventView::TextEvent(t@),
            DiscordEvents::RefreshData => DiscordEventView::RefreshData,
            DiscordEvents::StopData => DiscordEventView::StopData,
            DiscordEvents::Exit => DiscordEventView::Exit,
        }
    }
}

/// The views of a list of Discord events.
pub open spec fn events_view(v: Seq<DiscordEvents>) -> Seq<DiscordEventView> {
    v.map_values(|e: DiscordEvents| e@)
}

/// The views of a list of strings.
pub open spec fn strings_view(v: Seq<String>) -> Seq<Seq<char>> {
    v.map_values(|s: String| s@)
}

/// What an event or a command asks of the rest of the program: events for
/// the Discord side and lines for the server's standard input.
pub struct Response {
    pub discord: Vec<DiscordEvents>,
    pub server: Vec<String>,
}

/// The mathematical value of a `Response`.
pub ghost struct ResponseView {
    pub discord: Seq<DiscordEventView>,
    pub server: Seq<Seq<char>>,
}

impl View for Response {
    type V = ResponseView;

    open spec fn view(&self) -> ResponseView {
        ResponseView { discord: events_view(self.discord@), server: strings_view(self.server@) }
    }
}

/// The response that asks for nothing.
pub open spec fn empty_response() -> ResponseView {
    ResponseView { discord: Seq::empty(), server: Seq::empty() }
}

/// `r` with one more Discord event at the end.
pub open spec fn with_discord(r: ResponseView, e: DiscordEventView) -> ResponseView {
    ResponseView { discord: r.discord.push(e), server: r.server }
}

/// `r` with one more server line at the end.
pub open spec fn with_server(r: ResponseView, line: Seq<char>) -> ResponseView {
    ResponseView { discord: r.discord, server: r.server.push(line) }
}

impl Response {
    /// A response that asks for nothing.
    pub fn new() -> (res: Self)
        ensures
            res@ == empty_response(),
    {
        let res = Response { discord: Vec::new(), server: Vec::new() };
        assert(res@.discord == Seq::<DiscordEventView>::empty());
        assert(res@.server == Seq::<Seq<char>>::empty());
        res
    }

    fn push_discord(self, e: DiscordEvents) -> (res: Self)
        ensures
            res@ == with_discord(self@, e@),
    {
        let mut discord = self.discord;
        let ghost before = discord@;
        discord.push(e);
        assert(events_view(discord@) == events_view(before).push(e@));
        Response { discord, server: self.server }
    }

    /// Also posts `text` in the event channel.
    pub fn discord_text(self, text: &str) -> (res: Self)
        ensures
            res@ == with_discord(self@, DiscordEventView::TextEvent(text@)),
    {
        self.push_discord(DiscordEvents::TextEvent(owned(text)))
    }

    /// Also makes the program exit.
    pub fn async_exit(self) -> (res: Self)
        ensures
            res@ == with_discord(self@, DiscordEventView::Exit),
    {
        self.push_discord(DiscordEvents::Exit)
    }

    /// Also refreshes the data message.
    pub fn discord_refresh_data(self) -> (res: Self)
        ensures
            res@ == with_discord(self@, DiscordEventView::RefreshData),
    {
        self.push_discord(DiscordEvents::RefreshData)
    }

    /// Also marks the data message as stopped.
    pub fn discord_stop_data(self) -> (res: Self)
        ensures
            res@ == with_discord(self@, DiscordEventView::StopData),
    {
        self.push_discord(DiscordEvents::StopData)
    }

    /// Also writes `command` to the server's standard input.
    pub fn server_command(self, command: &str) -> (res: Self)
        ensures
            res@ == with_server(self@, command@),
    {
        let mut server = self.server;
        let ghost before = server@;
        let line = owned(command);
        server.push(line);
        assert(strings_view(server@) == strings_view(before).push(command@));
        Response { discord: self.discord, server }
    }
}

} // verus!
