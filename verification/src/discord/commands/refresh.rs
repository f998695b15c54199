use vstd::prelude::*;

use super::Command;
use crate::types::response::{empty_response, with_discord, DiscordEventView, Response};

verus! {

/// Refreshes the data message.
pub struct Refresh;

impl Command for Refresh {
    fn name(&self) -> (res: &'static str)
        ensures
            res@ == "refresh"@,
    {
        "refresh"
    }

    fn help(&self) -> (res: &'static str)
        ensures
            res@ == "refresh"@,
    {
        "refresh"
    }

    fn description(&self) -> (res: &'static str)
        ensures
            res@ == "Refreshes data embed"@,
    {
        "Refreshes data embed"
    }
}

impl Refresh {
    /// The response to the refresh command: refresh the data message.
    pub fn reply(&self) -> (res: Response)
        ensures
            res@ == with_discord(empty_response(), DiscordEventView::RefreshData),
    {
        Response::new().discord_refresh_data()
    }
}

} // verus!
