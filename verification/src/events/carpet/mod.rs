use vstd::prelude::*;

use crate::events::kinds::EventKind;

verus! {

/// The events of the carpet mod.
pub fn events() -> (res: Vec<EventKind>)
    ensures
        res@ == seq![EventKind::BotJoin],
{
    vec![EventKind::BotJoin]
}

} // verus!

pub mod bot_join;
