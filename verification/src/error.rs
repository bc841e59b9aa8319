//! The failures that tag operations report, and the text shown for each.

use vstd::prelude::*;
use vstd::string::StringExecFns;

verus! {

/// Why a tag operation failed.
#[derive(Debug)]
pub enum TagError {
    /// No tag of this name exists in the guild.
    DoesntExist(String),
    /// A tag of this name exists already in the guild.
    AlreadyExists(String),
    /// The operation was asked for outside any guild.
    NotGuild(),
    /// The chat platform reported a failure.
    Serenity(String),
    /// The storage engine reported a failure.
    Database(String),
    /// Stored bytes are not valid UTF-8 text.
    Utf8Error(String),
}

/// A `TagError` with its texts as sequences of characters.
pub enum TagFault {
    DoesntExist(Seq<char>),
    AlreadyExists(Seq<char>),
    NotGuild,
    Serenity(Seq<char>),
    Database(Seq<char>),
    Utf8Error(Seq<char>),
}

impl View for TagError {
    type V = TagFault;

    open spec fn view(&self) -> TagFault {
        match self {
            TagError::DoesntExist(tag) => TagFault::DoesntExist(tag@),
            TagError::AlreadyExists(tag) => TagFault::AlreadyExists(tag@),
            TagError::NotGuild() => TagFault::NotGuild,
            TagError::Serenity(e) => TagFault::Serenity(e@),
            TagError::Database(e) => TagFault::Database(e@),
            TagError::Utf8Error(e) => TagFault::Utf8Error(e@),
        }
    }
}

impl TagFault {
    /// The text shown to a user for this failure.
    pub open spec fn message(self) -> Seq<char> {
        match self {
            TagFault::DoesntExist(tag) => "❌ Tag `"@ + tag + "` doesn't exist!"@,
            TagFault::AlreadyExists(tag) => "❌ Tag `"@ + tag + "` already exists!"@,
            TagFault::NotGuild => "❌ This command can only be run in servers."@,
            TagFault::Serenity(e) => "❌ "@ + e,
            TagFault::Database(e) => "❌ "@ + e,
            TagFault::Utf8Error(e) => "❌ "@ + e,
        }
    }
}

impl TagError {
    /// Renders the failure as the text shown to a user.
    pub fn message(&self) -> (text: String)
        ensures
            text@ == self@.message(),
    {
        match self {
            TagError::DoesntExist(tag) => {
                let mut text = String::from_str("❌ Tag `");
                text.append(tag.as_str());
                text.append("` doesn't exist!");
                text
            },
            TagError::AlreadyExists(tag) => {
                let mut text = String::from_str("❌ Tag `");
                text.append(tag.as_str());
                text.append("` already exists!");
                text
            },
            TagError::NotGuild() => String::from_str("❌ This command can only be run in servers."),
            TagError::Serenity(e) => {
                let mut text = String::from_str("❌ ");
                text.append(e.as_str());
                text
            },
            TagError::Database(e) => {
                let mut text = String::from_str("❌ ");
                text.append(e.as_str());
                text
            },
            TagError::Utf8Error(e) => {
                let mut text = String::from_str("❌ ");
                text.append(e.as_str());
                text
            },
        }
    }
}

/// A result of text or failure, with its texts as sequences of characters.
pub open spec fn text_outcome(r: Result<String, TagError>) -> Result<Seq<char>, TagFault> {
    match r {
        Ok(text) => Ok(text@),
        Err(e) => Err(e@),
    }
}

/// A result of nothing or failure, with its texts as sequences of characters.
pub open spec fn unit_outcome(r: Result<(), TagError>) -> Result<(), TagFault> {
    match r {
        Ok(()) => Ok(()),
        Err(e) => Err(e@),
    }
}

/// Tells a guild from no guild: an operation outside any guild fails with
/// `NotGuild`, and inside one it goes on with the data and the guild's id.
pub fn get_data_and_id<D>(data: &D, guild_id: Option<u64>) -> (r: Result<(&D, u64), TagError>)
    ensures
        match guild_id {
            Some(id) => r matches Ok(pair) && pair.0 == data && pair.1 == id,
            None => r matches Err(e) && e@ == TagFault::NotGuild,
        },
{
    match guild_id {
        Some(id) => Ok((data, id)),
        None => Err(TagError::NotGuild()),
    }
}

} // verus!
