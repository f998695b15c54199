use vstd::prelude::*;

use super::advancement::{advancement_response, Advancement};
use super::carpet::bot_join::BotJoin;
use super::chat_message::{chat_response, ChatMessage};
use super::join_game::{join_response, JoinGame};
use super::leave_game::{leave_response, LeaveGame};
use super::server_start::{start_response, ServerStart};
use super::Event;
use crate::pattern::group_spec;
use crate::state::{bot_join_spec, join_spec, leave_spec, BotState, StateView};
use crate::types::response::{empty_response, Response, ResponseView};

verus! {

/// The events that lines of the server's output can trigger.
#[derive(Clone, Copy, PartialEq, Eq, Structural)]
pub enum EventKind {
    ServerStart,
    JoinGame,
    LeaveGame,
    ChatMessage,
    Advancement,
    BotJoin,
}

/// The name of an event, under which the configuration can disable it.
pub open spec fn event_name_spec(e: EventKind) -> Seq<char> {
    match e {
        EventKind::ServerStart => "server_start"@,
        EventKind::JoinGame => "join_game"@,
        EventKind::LeaveGame => "leave_game"@,
        EventKind::ChatMessage => "chat_message"@,
        EventKind::Advancement => "advancement"@,
        EventKind::BotJoin => "bot_join"@,
    }
}

/// The pattern of an event.
pub open spec fn event_regex_spec(e: EventKind) -> Seq<char> {
    match e {
        EventKind::ServerStart => r"\[.*\]: Done \((.*)\)!"@,
        EventKind::JoinGame => r"\[.*\]: (.*) joined the game"@,
        EventKind::LeaveGame => r"\[.*\]: (.*) left the game"@,
        EventKind::ChatMessage => r"\[.*\]: <(.*)> (.*)"@,
        EventKind::Advancement => r"\[.*\]: (.*) has (made|completed) the (advancement|challenge) \[(.*)\]"@,
        EventKind::BotJoin => r"\[.*\]: (.*)\[local\] logged in"@,
    }
}

/// Whether the capture groups that an event reads took part in the match.
pub open spec fn event_groups_present(e: EventKind, caps: Seq<Option<Seq<char>>>) -> bool {
    &&& group_spec(caps, 1) is Some
    &&& e == EventKind::ChatMessage ==> group_spec(caps, 2) is Some
    &&& e == EventKind::Advancement ==> group_spec(caps, 3) is Some && group_spec(caps, 4) is Some
}

/// The state after an event whose pattern matched with `caps`, and the
/// response to it.
pub open spec fn event_step(e: EventKind, s: StateView, caps: Seq<Option<Seq<char>>>) -> (
    StateView,
    ResponseView,
) {
    let g1 = group_spec(caps, 1)->0;
    match e {
        EventKind::ServerStart => (StateView { server_on: true, ..s }, start_response(g1)),
        EventKind::JoinGame => {
            let (players, bot) = join_spec(s.players, g1);
            (StateView { players, ..s }, join_response(g1, bot))
        },
        EventKind::LeaveGame => (
            StateView { players: leave_spec(s.players, g1), ..s },
            leave_response(g1),
        ),
        EventKind::ChatMessage => (s, chat_response(g1, group_spec(caps, 2)->0)),
        EventKind::Advancement => (
            s,
            advancement_response(g1, group_spec(caps, 3)->0, group_spec(caps, 4)->0),
        ),
        EventKind::BotJoin => (
            StateView { players: bot_join_spec(s.players, g1), ..s },
            empty_response(),
        ),
    }
}

impl EventKind {
    /// The name of the event.
    pub fn name(&self) -> (res: &'static str)
        ensures
            res@ == event_name_spec(*self),
    {
        match self {
            EventKind::ServerStart => ServerStart.name(),
            EventKind::JoinGame => JoinGame.name(),
            EventKind::LeaveGame => LeaveGame.name(),
            EventKind::ChatMessage => ChatMessage.name(),
            EventKind::Advancement => Advancement.name(),
            EventKind::BotJoin => BotJoin.name(),
        }
    }

    /// The pattern of the event.
    pub fn regex(&self) -> (res: &'static str)
        ensures
            res@ == event_regex_spec(*self),
    {
        match self {
            EventKind::ServerStart => ServerStart.regex(),
            EventKind::JoinGame => JoinGame.regex(),
            EventKind::LeaveGame => LeaveGame.regex(),
            EventKind::ChatMessage => ChatMessage.regex(),
            EventKind::Advancement => Advancement.regex(),
            EventKind::BotJoin => BotJoin.regex(),
        }
    }

    /// Whether the groups that the event reads are all in `caps`.
    pub fn groups_present(&self, caps: &Vec<Option<String>>) -> (res: bool)
        ensures
            res == event_groups_present(*self, caps.deep_view()),
    {
        let has = |i: usize| -> (b: bool)
            ensures
                b == (group_spec(caps.deep_view(), i as int) is Some),
            { i < caps.len() && caps[i].is_some() };
        let ok = has(1) && match self {
            EventKind::ChatMessage => has(2),
            EventKind::Advancement => has(3) && has(4),
            _ => true,
        };
        ok
    }

    /// Runs the event on a line whose capture groups are `caps`.
    pub fn execute(&self, state: &mut BotState, caps: &Vec<Option<String>>) -> (res: Response)
        requires
            event_groups_present(*self, caps.deep_view()),
        ensures
            (final(state)@, res@) == event_step(*self, old(state)@, caps.deep_view()),
    {
        match self {
            EventKind::ServerStart => ServerStart.execute(state, caps),
            EventKind::JoinGame => JoinGame.execute(state, caps),
            EventKind::LeaveGame => LeaveGame.execute(state, caps),
            EventKind::ChatMessage => ChatMessage.execute(caps),
            EventKind::Advancement => Advancement.execute(caps),
            EventKind::BotJoin => BotJoin.execute(state, caps),
        }
    }
}

} // verus!
