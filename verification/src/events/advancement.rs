use vstd::prelude::*;

use super::Event;
use crate::pattern::{group, group_spec};
use crate::text::owned;
use crate::types::response::{
    empty_response, with_discord, DiscordEventView, Response, ResponseView,
};

verus! {

/// A player made an advancement or completed a challenge.
pub struct Advancement;

/// The text posted when `name` completes the `thing` (advancement or
/// challenge) called `advancement`.
pub open spec fn advancement_text(
    name: Seq<char>,
    thing: Seq<char>,
    advancement: Seq<char>,
) -> Seq<char> {
    ":dvd: **"@ + name + "** has completed the "@ + thing + " **"@ + advancement + "**"@
}

/// The response to an advancement.
pub open spec fn advancement_response(
    name: Seq<char>,
    thing: Seq<char>,
    advancement: Seq<char>,
) -> ResponseView {
    with_discord(
        empty_response(),
        DiscordEventView::TextEvent(advancement_text(name, thing, advancement)),
    )
}

impl Event for Advancement {
    fn name(&self) -> (res: &'static str)
        ensures
            res@ == "advancement"@,
    {
        "advancement"
    }

    fn regex(&self) -> (res: &'static str)
        ensures
            res@ == r"\[.*\]: (.*) has (made|completed) the (advancement|challenge) \[(.*)\]"@,
    {
        r"\[.*\]: (.*) has (made|completed) the (advancement|challenge) \[(.*)\]"
    }
}

impl Advancement {
    /// Announces the advancement: player in group 1, kind in group 3, title
    /// in group 4.
    pub fn execute(&self, captures: &Vec<Option<String>>) -> (res: Response)
        requires
            group_spec(captures.deep_view(), 1) is Some,
            group_spec(captures.deep_view(), 3) is Some,
            group_spec(captures.deep_view(), 4) is Some,
        ensures
            res@ == advancement_response(
                group_spec(captures.deep_view(), 1)->0,
                group_spec(captures.deep_view(), 3)->0,
                group_spec(captures.deep_view(), 4)->0,
            ),
    {
        let name = group(captures, 1).unwrap();
        let thing = group(captures, 3).unwrap();
        let advancement = group(captures, 4).unwrap();
        let mut text = owned(":dvd: **");
        text.append(name.as_str());
        text.append("** has completed the ");
        text.append(thing.as_str());
        text.append(" **");
        text.append(advancement.as_str());
        text.append("**");
        Response::new().discord_text(text.as_str())
    }
}

} // verus!
