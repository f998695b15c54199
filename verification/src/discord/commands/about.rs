use vstd::prelude::*;

use super::{Command, Embed, EmbedView};
use crate::text::owned;

verus! {

/// Tells Discord users about the bot.
pub struct About;

impl Command for About {
    fn name(&self) -> (res: &'static str)
        ensures
            res@ == "about"@,
    {
        "about"
    }

    fn help(&self) -> (res: &'static str)
        ensures
            res@ == "about"@,
    {
        "about"
    }

    fn description(&self) -> (res: &'static str)
        ensures
            res@ == "Gives infomation about this *amazing* bot"@,
    {
        "Gives infomation about this *amazing* bot"
    }
}

/// The embed that answers the about command for a bot of version `version`.
pub open spec fn about_embed_spec(version: Seq<char>) -> EmbedView {
    EmbedView { title: "About"@, description: "Version: "@ + version + "\nMade by: Sigma#8214"@ }
}

impl About {
    /// The embed that answers the about command.
    pub fn reply(&self, version: &str) -> (res: Embed)
        ensures
            res@ == about_embed_spec(version@),
    {
        let mut description = owned("Version: ");
        description.append(version);
        description.append("\nMade by: Sigma#8214");
        Embed { title: owned("About"), description }
    }
}

} // verus!
