use vstd::prelude::*;

pub use crate::types::response::DiscordEvents;
use crate::text::owned;
use crate::types::response::{events_view, DiscordEventView};

verus! {

/// A series of events to carry out on the Discord side, in order.
pub struct DiscordEvent {
    pub events: Vec<DiscordEvents>,
}

impl View for DiscordEvent {
    type V = Seq<DiscordEventView>;

    open spec fn view(&self) -> Seq<DiscordEventView> {
        events_view(self.events@)
    }
}

impl DiscordEvent {
    /// No events.
    pub fn new() -> (res: Self)
        ensures
            res@ == Seq::<DiscordEventView>::empty(),
    {
        let res = DiscordEvent { events: Vec::new() };
        assert(res@ =~= Seq::<DiscordEventView>::empty());
        res
    }

    fn followed_by(self, e: DiscordEvents) -> (res: Self)
        ensures
            res@ == self@.push(e@),
    {
        let mut events = self.events;
        let ghost before = events@;
        events.push(e);
        assert(events_view(events@) =~= events_view(before).push(e@));
        DiscordEvent { events }
    }

    /// Then posts `text` in the event channel.
    pub fn text(self, text: &str) -> (res: Self)
        ensures
            res@ == self@.push(DiscordEventView::TextEvent(text@)),
    {
        self.followed_by(DiscordEvents::TextEvent(owned(text)))
    }

    /// Then exits the program.
    pub fn exit(self) -> (res: Self)
        ensures
            res@ == self@.push(DiscordEventView::Exit),
    {
        self.followed_by(DiscordEvents::Exit)
    }

    /// Then refreshes the data message.
    pub fn refresh_data(self) -> (res: Self)
        ensures
            res@ == self@.push(DiscordEventView::RefreshData),
    {
        self.followed_by(DiscordEvents::RefreshData)
    }

    /// Then marks the data message as stopped.
    pub fn stop_data(self) -> (res: Self)
        ensures
            res@ == self@.push(DiscordEventView::StopData),
    {
        self.followed_by(DiscordEvents::StopData)
    }
}

} // verus!

pub mod commands;
pub mod misc;
