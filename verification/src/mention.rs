//! Mentions: the markup by which a message names a user or a role.

use crate::text::{decimal, push_decimal};
use vstd::prelude::*;
use vstd::string::StringExecFns;

verus! {

/// The id of a user.
#[derive(Clone, Copy, Debug)]
pub struct UserId(pub u64);

/// The id of a role.
#[derive(Clone, Copy, Debug)]
pub struct RoleId(pub u64);

/// Something that a message can mention.
pub trait Mentionable {
    /// The markup of the mention.
    spec fn mention_text(&self) -> Seq<char>;

    /// Renders the markup of the mention.
    fn mention(&self) -> (text: String)
        ensures
            text@ == self.mention_text(),
    ;
}

impl Mentionable for UserId {
    /// A user is mentioned as `<@`, the id in decimal, `>`.
    open spec fn mention_text(&self) -> Seq<char> {
        "<@"@ + decimal(self.0 as nat) + ">"@
    }

    fn mention(&self) -> (text: String) {
        let mut text = String::from_str("<@");
        push_decimal(&mut text, self.0);
        text.append(">");
        text
    }
}

impl Mentionable for RoleId {
    /// A role is mentioned as `<@&`, the id in decimal, `>`.
    open spec fn mention_text(&self) -> Seq<char> {
        "<@&"@ + decimal(self.0 as nat) + ">"@
    }

    fn mention(&self) -> (text: String) {
        let mut text = String::from_str("<@&");
        push_decimal(&mut text, self.0);
        text.append(">");
        text
    }
}

} // verus!
