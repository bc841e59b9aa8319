//! Guild logs: which gateway events are written to a guild's log channels, and
//! what is written.

use crate::mention::{Mentionable, UserId};
use crate::settings::{channel_in, SettingsDb, BAN_CHANNEL_ID, MESSAGE_SENT_CHANNEL_ID};
use crate::store::StoreMap;
use crate::text::{decimal, tenant_key};
use vstd::prelude::*;
use vstd::string::StringExecFns;

verus! {

/// What the log handler reads of a gateway event.
pub enum Event {
    /// A message was sent: in what guild, if in any, by whom, and what it says.
    MessageCreate { guild_id: Option<u64>, author: UserId, content: String },
    /// A user was banned from a guild.
    GuildBanAdd { guild_id: u64, user: UserId },
    /// Any other event.
    Other,
}

/// The colour of a log entry.
#[derive(Clone, Copy, Debug, PartialEq, Eq)]
pub enum Color {
    Blurple,
    Red,
}

/// One titled line of a log entry.
pub struct Field {
    pub name: String,
    pub value: String,
    pub inline: bool,
}

/// A log entry and the channel it goes to.
pub struct LogEntry {
    pub channel: u64,
    pub title: String,
    pub color: Color,
    pub fields: Vec<Field>,
}

/// A log entry with its texts as sequences of characters.
pub struct Notice {
    pub channel: u64,
    pub title: Seq<char>,
    pub color: Color,
    pub fields: Seq<(Seq<char>, Seq<char>, bool)>,
}

impl View for Field {
    type V = (Seq<char>, Seq<char>, bool);

    open spec fn view(&self) -> (Seq<char>, Seq<char>, bool) {
        (self.name@, self.value@, self.inline)
    }
}

impl View for LogEntry {
    type V = Notice;

    open spec fn view(&self) -> Notice {
        Notice {
            channel: self.channel,
            title: self.title@,
            color: self.color,
            fields: Seq::new(self.fields@.len(), |i: int| self.fields@[i]@),
        }
    }
}

/// What is logged for an event, given the settings and the bot's own user id
/// as text.
///
/// A message is logged to the guild's channel for sent messages, unless it
/// was sent outside any guild, no such channel is set, or the bot itself
/// sent it. A ban is logged to the guild's channel for bans, if one is set.
/// Nothing else is logged.
pub open spec fn notice_for(settings: StoreMap, bot_id: Seq<char>, event: Event) -> Option<Notice> {
    match event {
        Event::MessageCreate { guild_id, author, content } => match guild_id {
            Some(guild) => match channel_in(settings, guild, MESSAGE_SENT_CHANNEL_ID@) {
                Some(channel) => if decimal(author.0 as nat) == bot_id {
                    None
                } else {
                    Some(
                        Notice {
                            channel,
                            title: "Message Sent"@,
                            color: Color::Blurple,
                            fields: seq![
                                ("User"@, author.mention_text(), true),
                                ("Content"@, content@, false),
                            ],
                        },
                    )
                },
                None => None,
            },
            None => None,
        },
        Event::GuildBanAdd { guild_id, user } => match channel_in(
            settings,
            guild_id,
            BAN_CHANNEL_ID@,
        ) {
            Some(channel) => Some(
                Notice {
                    channel,
                    title: "User Banned"@,
                    color: Color::Red,
                    fields: seq![("Banned User"@, user.mention_text(), true)],
                },
            ),
            None => None,
        },
        Event::Other => None,
    }
}

/// The handler of gateway events that keeps the guild logs.
pub struct Handler;

impl Handler {
    /// Decides what to log for an event: the entry and its channel, or nothing.
    pub fn raw_event(&self, settings: &SettingsDb, bot_id: &str, new_event: &Event) -> (entry:
        Option<LogEntry>)
        ensures
            match notice_for(settings@, bot_id@, *new_event) {
                Some(notice) => entry matches Some(e) && e@ == notice,
                None => entry is None,
            },
    {
        match new_event {
            Event::MessageCreate { guild_id, author, content } => {
                let guild = match guild_id {
                    Some(guild) => *guild,
                    None => {
                        return None;
                    },
                };
                let channel = match settings.get_channel_id(guild, MESSAGE_SENT_CHANNEL_ID) {
                    Some(channel) => channel,
                    None => {
                        return None;
                    },
                };
                // a log of the bot's own messages would be logged in turn
                if tenant_key(author.0) == bot_id.to_owned() {
                    return None;
                }
                let mut fields: Vec<Field> = Vec::new();
                fields.push(
                    Field { name: String::from_str("User"), value: author.mention(), inline: true },
                );
                fields.push(
                    Field {
                        name: String::from_str("Content"),
                        value: content.clone(),
                        inline: false,
                    },
                );
                let entry = LogEntry {
                    channel,
                    title: String::from_str("Message Sent"),
                    color: Color::Blurple,
                    fields,
                };
                assert(entry@.fields =~= seq![
                    ("User"@, author.mention_text(), true),
                    ("Content"@, content@, false),
                ]);
                Some(entry)
            },
            Event::GuildBanAdd { guild_id, user } => {
                let channel = match settings.get_channel_id(*guild_id, BAN_CHANNEL_ID) {
                    Some(channel) => channel,
                    None => {
                        return None;
                    },
                };
                let mut fields: Vec<Field> = Vec::new();
                fields.push(
                    Field {
                        name: String::from_str("Banned User"),
                        value: user.mention(),
                        inline: true,
                    },
                );
                let entry = LogEntry {
                    channel,
                    title: String::from_str("User Banned"),
                    color: Color::Red,
                    fields,
                };
                assert(entry@.fields =~= seq![("Banned User"@, user.mention_text(), true)]);
                Some(entry)
            },
            Event::Other => None,
        }
    }
}

} // verus!
