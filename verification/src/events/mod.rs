use vstd::prelude::*;

use crate::pattern::{regex_captures, regex_captures_of, PatternError};
use crate::state::{BotState, StateView};
use crate::text::contains_text;
use crate::types::response::{Response, ResponseView};
use kinds::{event_groups_present, event_name_spec, event_regex_spec, event_step, EventKind};
use server_crash::{crash_response, ServerCrash};
use server_stop::{stop_response, ServerStop};

verus! {

/// A kind of line in the server's output that the bot reacts to.
pub trait Event {
    /// The name under which the event can be disabled in the configuration.
    fn name(&self) -> &'static str;

    /// The pattern that a line of the server's output must match.
    fn regex(&self) -> &'static str;
}

/// Something the bot reacts to that does not come from a line of output.
pub trait InternalEvent {
    /// The name of the event.
    fn name(&self) -> &'static str;
}

/// The events the bot knows, in the order in which they are tried on a line.
pub open spec fn base_events_spec() -> Seq<EventKind> {
    seq![
        EventKind::ServerStart,
        EventKind::JoinGame,
        EventKind::LeaveGame,
        EventKind::ChatMessage,
        EventKind::Advancement,
        EventKind::BotJoin,
    ]
}

/// All events the bot knows: the vanilla ones, then those of the carpet
/// mod.
pub fn base_events() -> (res: Vec<EventKind>)
    ensures
        res@ == base_events_spec(),
{
    let mut events: Vec<EventKind> = vec![
        EventKind::ServerStart,
        EventKind::JoinGame,
        EventKind::LeaveGame,
        EventKind::ChatMessage,
        EventKind::Advancement,
    ];
    let extra = carpet::events();
    let mut i: usize = 0;
    let ghost start = events@;
    while i < extra.len()
        invariant
            i <= extra.len(),
            events@ == start + extra@.take(i as int),
        decreases extra.len() - i,
    {
        events.push(extra[i]);
        assert(extra@.take(i + 1) == extra@.take(i as int).push(extra@[i as int]));
        i += 1;
    }
    assert(extra@.take(extra.len() as int) == extra@);
    assert(events@ =~= base_events_spec());
    events
}

/// The events of `events` whose name is not in `disabled`, in order.
pub open spec fn enabled_spec(events: Seq<EventKind>, disabled: Seq<Seq<char>>) -> Seq<EventKind>
    decreases events.len(),
{
    if events.len() == 0 {
        events
    } else if disabled.contains(event_name_spec(events.last())) {
        enabled_spec(events.drop_last(), disabled)
    } else {
        enabled_spec(events.drop_last(), disabled).push(events.last())
    }
}

/// An event is kept exactly when it is in the list and its name is equal to
/// no item of the disabled list; with no event name disabled, the list is
/// kept whole.
pub proof fn lemma_enabled_events(events: Seq<EventKind>, disabled: Seq<Seq<char>>)
    ensures
        forall|e: EventKind|
            #[trigger] enabled_spec(events, disabled).contains(e) <==> (events.contains(e)
                && !disabled.contains(event_name_spec(e))),
        (forall|i: int| 0 <= i < events.len() ==> !disabled.contains(event_name_spec(#[trigger] events[i])))
            ==> enabled_spec(events, disabled) == events,
    decreases events.len(),
{
    if events.len() > 0 {
        let rest = events.drop_last();
        lemma_enabled_events(rest, disabled);
        assert forall|e: EventKind| #[trigger] enabled_spec(events, disabled).contains(e) <==> (
        events.contains(e) && !disabled.contains(event_name_spec(e))) by {
            if events.contains(e) && e != events.last() {
                let k = choose|k: int| 0 <= k < events.len() && events[k] == e;
                assert(rest[k] == e);
            }
            if rest.contains(e) {
                let k = choose|k: int| 0 <= k < rest.len() && rest[k] == e;
                assert(events[k] == e);
            }
            if e == events.last() {
                assert(events[events.len() - 1] == e);
            }
            let en = enabled_spec(rest, disabled);
            if !disabled.contains(event_name_spec(events.last())) {
                assert(en.push(events.last())[en.len() as int] == events.last());
                if en.push(events.last()).contains(e) {
                    let k = choose|k: int| 0 <= k < en.len() + 1 && en.push(events.last())[k] == e;
                    if k < en.len() {
                        assert(en[k] == e);
                    }
                }
                if en.contains(e) {
                    let k = choose|k: int| 0 <= k < en.len() && en[k] == e;
                    assert(en.push(events.last())[k] == e);
                }
            }
        }
        if (forall|i: int| 0 <= i < events.len() ==> !disabled.contains(event_name_spec(#[trigger] events[i]))) {
            assert forall|i: int| 0 <= i < rest.len() implies !disabled.contains(event_name_spec(#[trigger] rest[i])) by {
                assert(rest[i] == events[i]);
            }
            assert(!disabled.contains(event_name_spec(events[events.len() - 1])));
            assert(rest.push(events.last()) == events);
        }
    }
}

/// The events that the configuration does not disable.
pub fn enabled_events(events: &Vec<EventKind>, disabled: &Vec<String>) -> (res: Vec<EventKind>)
    ensures
        res@ == enabled_spec(events@, disabled.deep_view()),
{
    let mut res: Vec<EventKind> = Vec::new();
    let mut i: usize = 0;
    while i < events.len()
        invariant
            i <= events.len(),
            res@ == enabled_spec(events@.take(i as int), disabled.deep_view()),
        decreases events.len() - i,
    {
        assert(events@.take(i + 1).drop_last() == events@.take(i as int));
        let e = events[i];
        if !contains_text(disabled, e.name()) {
            res.push(e);
        }
        i += 1;
    }
    assert(events@.take(events.len() as int) == events@);
    res
}

/// The views of a list of responses.
pub open spec fn responses_view(v: Seq<Response>) -> Seq<ResponseView> {
    v.map_values(|r: Response| r@)
}

/// The state after a line of output has been offered to each of `events`
/// in turn, and the response of each event that matched; `None` when the
/// pattern of one of them does not compile.
pub open spec fn line_spec(s: StateView, events: Seq<EventKind>, line: Seq<char>) -> Option<
    (StateView, Seq<ResponseView>),
>
    decreases events.len(),
{
    if events.len() == 0 {
        Some((s, Seq::empty()))
    } else {
        match line_spec(s, events.drop_last(), line) {
            None => None,
            Some((s1, rs)) => {
                let e = events.last();
                match regex_captures_of(event_regex_spec(e), line) {
                    None => None,
                    Some(None) => Some((s1, rs)),
                    Some(Some(caps)) => if event_groups_present(e, caps) {
                        let (s2, r) = event_step(e, s1, caps);
                        Some((s2, rs.push(r)))
                    } else {
                        Some((s1, rs))
                    },
                }
            },
        }
    }
}

proof fn lemma_line_spec_failure_extends(
    s: StateView,
    events: Seq<EventKind>,
    line: Seq<char>,
    k: int,
)
    requires
        0 <= k <= events.len(),
        line_spec(s, events.take(k), line) is None,
    ensures
        line_spec(s, events, line) is None,
    decreases events.len() - k,
{
    if k == events.len() {
        assert(events.take(k) == events);
    } else {
        assert(events.take(k + 1).drop_last() == events.take(k));
        lemma_line_spec_failure_extends(s, events, line, k + 1);
    }
}

/// A line that no pattern matches leaves the state as it is and gets no
/// response.
pub proof fn lemma_unmatched_line(s: StateView, events: Seq<EventKind>, line: Seq<char>)
    requires
        forall|i: int|
            0 <= i < events.len() ==> regex_captures_of(event_regex_spec(#[trigger] events[i]), line)
                == Some(None::<Seq<Option<Seq<char>>>>),
    ensures
        line_spec(s, events, line) == Some((s, Seq::<ResponseView>::empty())),
    decreases events.len(),
{
    if events.len() > 0 {
        assert forall|i: int| 0 <= i < events.drop_last().len() implies regex_captures_of(
            event_regex_spec(#[trigger] events.drop_last()[i]),
            line,
        ) == Some(None::<Seq<Option<Seq<char>>>>) by {
            assert(events.drop_last()[i] == events[i]);
        }
        lemma_unmatched_line(s, events.drop_last(), line);
        assert(regex_captures_of(event_regex_spec(events[events.len() - 1]), line) == Some(
            None::<Seq<Option<Seq<char>>>>,
        ));
    }
}

/// Offers a line of the server's output to each event in turn; each event
/// whose pattern matches updates the state and gives a response.
pub fn process_line(state: &mut BotState, events: &Vec<EventKind>, line: &str) -> (res: Result<
    Vec<Response>,
    PatternError,
>)
    ensures
        match res {
            Ok(rs) => line_spec(old(state)@, events@, line@) == Some(
                (final(state)@, responses_view(rs@)),
            ),
            Err(_) => line_spec(old(state)@, events@, line@) is None,
        },
{
    let mut responses: Vec<Response> = Vec::new();
    let mut i: usize = 0;
    while i < events.len()
        invariant
            i <= events.len(),
            line_spec(old(state)@, events@.take(i as int), line@) == Some(
                (state@, responses_view(responses@)),
            ),
        decreases events.len() - i,
    {
        assert(events@.take(i + 1).drop_last() == events@.take(i as int));
        let e = events[i];
        match regex_captures(e.regex(), line) {
            Err(_) => {
                proof {
                    lemma_line_spec_failure_extends(old(state)@, events@, line@, i + 1);
                }
                return Err(PatternError);
            },
            Ok(None) => {},
            Ok(Some(caps)) => {
                if e.groups_present(&caps) {
                    let r = e.execute(state, &caps);
                    let ghost before = responses_view(responses@);
                    responses.push(r);
                    assert(responses_view(responses@) =~= before.push(r@));
                }
            },
        }
        i += 1;
    }
    assert(events@.take(events.len() as int) == events@);
    Ok(responses)
}

/// The response to the server process exiting with `code`: a normal stop
/// for status 0, a crash otherwise.
pub fn server_exit(state: &mut BotState, code: i32) -> (res: Response)
    ensures
        final(state)@ == (StateView { players: old(state)@.players, server_on: false }),
        res@ == (if code == 0 {
            stop_response()
        } else {
            crash_response(code as int)
        }),
{
    if code == 0 {
        ServerStop.execute(state)
    } else {
        ServerCrash(code).execute(state)
    }
}

} // verus!

pub mod advancement;
pub mod carpet;
pub mod chat_message;
pub mod join_game;
pub mod kinds;
pub mod leave_game;
pub mod server_crash;
pub mod server_start;
pub mod server_stop;
