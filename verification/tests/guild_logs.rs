use guild_tags::guild_logs::{Color, Event, Handler};
use guild_tags::mention::{Mentionable, RoleId, UserId};
use guild_tags::settings::SettingsDb;

fn settings() -> SettingsDb {
    let mut db = SettingsDb::new();
    db.set_channel_id("MESSAGE_SENT_CHANNEL_ID", 111, "1".to_string());
    db.set_channel_id("BAN_CHANNEL_ID", 222, "1".to_string());
    db.set_channel_id("BAN_CHANNEL_ID", 333, "2".to_string());
    db
}

fn message(guild_id: Option<u64>, author: u64, content: &str) -> Event {
    Event::MessageCreate { guild_id, author: UserId(author), content: content.to_string() }
}

#[test]
fn mentions() {
    assert_eq!(UserId(42).mention(), "<@42>");
    assert_eq!(RoleId(42).mention(), "<@&42>");
    assert_eq!(UserId(0).mention(), "<@0>");
    assert_eq!(RoleId(u64::MAX).mention(), "<@&18446744073709551615>");
}

#[test]
fn a_message_is_logged_to_the_channel_for_messages() {
    let entry = Handler.raw_event(&settings(), "999", &message(Some(1), 42, "hello")).unwrap();
    assert_eq!(entry.channel, 111);
    assert_eq!(entry.title, "Message Sent");
    assert_eq!(entry.color, Color::Blurple);
    assert_eq!(entry.fields.len(), 2);
    assert_eq!(entry.fields[0].name, "User");
    assert_eq!(entry.fields[0].value, "<@42>");
    assert!(entry.fields[0].inline);
    assert_eq!(entry.fields[1].name, "Content");
    assert_eq!(entry.fields[1].value, "hello");
    assert!(!entry.fields[1].inline);
}

#[test]
fn a_message_is_not_logged_without_guild_or_channel() {
    assert!(Handler.raw_event(&settings(), "999", &message(None, 42, "hello")).is_none());
    assert!(Handler.raw_event(&settings(), "999", &message(Some(2), 42, "hello")).is_none());
    assert!(Handler.raw_event(&settings(), "999", &message(Some(3), 42, "hello")).is_none());
    assert!(Handler.raw_event(&SettingsDb::new(), "999", &message(Some(1), 42, "hello")).is_none());
}

#[test]
fn the_bots_own_messages_are_not_logged() {
    assert!(Handler.raw_event(&settings(), "42", &message(Some(1), 42, "hello")).is_none());
    assert!(Handler.raw_event(&settings(), "042", &message(Some(1), 42, "hello")).is_some());
    assert!(Handler
        .raw_event(&settings(), "set your user id env var bro", &message(Some(1), 42, "hello"))
        .is_some());
}

#[test]
fn a_ban_is_logged_to_the_channel_for_bans() {
    let ban = Event::GuildBanAdd { guild_id: 2, user: UserId(7) };
    let entry = Handler.raw_event(&settings(), "7", &ban).unwrap();
    assert_eq!(entry.channel, 333);
    assert_eq!(entry.title, "User Banned");
    assert_eq!(entry.color, Color::Red);
    assert_eq!(entry.fields.len(), 1);
    assert_eq!(entry.fields[0].name, "Banned User");
    assert_eq!(entry.fields[0].value, "<@7>");
    assert!(entry.fields[0].inline);
    let elsewhere = Event::GuildBanAdd { guild_id: 3, user: UserId(7) };
    assert!(Handler.raw_event(&settings(), "999", &elsewhere).is_none());
}

#[test]
fn other_events_are_not_logged() {
    assert!(Handler.raw_event(&settings(), "999", &Event::Other).is_none());
}
