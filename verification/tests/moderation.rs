use guild_tags::moderation::{
    eq_ignoring_ascii_case, guild_name_text, mod_action_dm, mute_overwrites, mute_reply,
    muted_role_plan, reason_text, reply_action_first, reply_notice_first, report_description,
    strip_unwanted, to_ascii_lower, unban_reply, warn_reply, MutedRolePlan, Overwrite,
    OverwriteKind, RoleInfo,
};
use guild_tags::settings::respond;

const SEND_MESSAGES: u64 = 1 << 11;
const SEND_TTS_MESSAGES: u64 = 1 << 12;
const ADD_REACTIONS: u64 = 1 << 6;
const SPEAK: u64 = 1 << 21;
const VIEW_CHANNEL: u64 = 1 << 10;

fn role(id: u64, name: &str, permissions: u64) -> RoleInfo {
    RoleInfo { id, name: name.to_string(), permissions }
}

#[test]
fn defaults() {
    assert_eq!(reason_text(None), "No reason provided");
    assert_eq!(reason_text(Some("spam".to_string())), "spam");
    assert_eq!(reason_text(Some(String::new())), "");
    assert_eq!(guild_name_text(None), "Unknown server");
    assert_eq!(guild_name_text(Some("Home".to_string())), "Home");
}

#[test]
fn the_notice_to_the_member() {
    assert_eq!(
        mod_action_dm("Home", "banned", "spam"),
        "**Home**: You have been banned.\n**Reason**: spam"
    );
}

#[test]
fn replies_where_the_action_comes_first() {
    assert_eq!(
        reply_action_first("ban", "Banned", "bob", None, true),
        "✅ Banned bob.\n✅ DM sent successfully."
    );
    assert_eq!(
        reply_action_first("ban", "Banned", "bob", None, false),
        "✅ Banned bob.\n❌ Could not send DM."
    );
    assert_eq!(
        reply_action_first("ban", "Banned", "bob", Some("no rights".to_string()), false),
        "❌ Failed to ban user: no rights\n"
    );
    assert_eq!(
        reply_action_first("kick", "Muted", "bob", Some("no rights".to_string()), true),
        "❌ Failed to kick user: no rights\n"
    );
}

#[test]
fn replies_where_the_notice_comes_first() {
    assert_eq!(
        reply_notice_first("kick", "Kicked", "bob", None, true),
        "✅ Kicked bob.\n✅ DM sent successfully."
    );
    assert_eq!(
        reply_notice_first("kick", "Kicked", "bob", None, false),
        "✅ Kicked bob.\n❌ Could not send DM."
    );
    assert_eq!(
        reply_notice_first("kick", "Kicked", "bob", Some("no rights".to_string()), false),
        "❌ Failed to kick user: no rights\n✅ DM sent successfully."
    );
}

#[test]
fn other_replies() {
    assert_eq!(mute_reply("bob", true, true), "✅ Muted bob.\n✅ DM sent successfully.");
    assert_eq!(
        mute_reply("bob", false, false),
        "✅ Muted bob.\n❌ Could not send DM.❌ Could not update channel permissions."
    );
    assert_eq!(unban_reply("bob", None), "✅ Unbanned bob.");
    assert_eq!(unban_reply("bob", Some("gone".to_string())), "❌ Failed to unban user: gone");
    assert_eq!(warn_reply("bob", true), "✅ warned bob.");
    assert_eq!(warn_reply("bob", false), "❌ Could not send DM.");
    assert_eq!(
        report_description("bad words", "rude"),
        "**Message content:**\nbad words\n\n**Reason:**\n```\nrude\n```\n"
    );
}

#[test]
fn unwanted_permissions_are_taken_away() {
    let unwanted = SEND_MESSAGES | SPEAK | SEND_TTS_MESSAGES | ADD_REACTIONS;
    assert_eq!(strip_unwanted(VIEW_CHANNEL, unwanted), None);
    assert_eq!(strip_unwanted(0, unwanted), None);
    assert_eq!(strip_unwanted(VIEW_CHANNEL | SPEAK, unwanted), Some(VIEW_CHANNEL));
    assert_eq!(strip_unwanted(unwanted, unwanted), Some(0));
    assert_eq!(strip_unwanted(u64::MAX, unwanted), Some(!unwanted));
    assert_eq!(strip_unwanted(u64::MAX, 0), None);
}

#[test]
fn an_overwrite_of_the_role_is_changed_in_place() {
    let deny = SEND_MESSAGES | SPEAK;
    let before = vec![
        Overwrite { allow: VIEW_CHANNEL, deny: 0, kind: OverwriteKind::Member(5) },
        Overwrite {
            allow: VIEW_CHANNEL | SEND_MESSAGES,
            deny: ADD_REACTIONS,
            kind: OverwriteKind::Role(5),
        },
        Overwrite { allow: SPEAK, deny: 0, kind: OverwriteKind::Role(6) },
        Overwrite { allow: SPEAK, deny: 0, kind: OverwriteKind::Role(5) },
    ];
    let after = mute_overwrites(before.clone(), 5, deny);
    assert_eq!(after.len(), 4);
    assert_eq!(after[0], before[0]);
    assert_eq!(
        after[1],
        Overwrite {
            allow: VIEW_CHANNEL,
            deny: ADD_REACTIONS | SEND_MESSAGES | SPEAK,
            kind: OverwriteKind::Role(5),
        }
    );
    assert_eq!(after[2], before[2]);
    assert_eq!(after[3], before[3]);
}

#[test]
fn an_overwrite_of_the_role_is_added_where_there_is_none() {
    let deny = SEND_MESSAGES | SPEAK;
    assert_eq!(
        mute_overwrites(Vec::new(), 5, deny),
        vec![Overwrite { allow: 0, deny, kind: OverwriteKind::Role(5) }]
    );
    let before = vec![
        Overwrite { allow: SPEAK, deny: 0, kind: OverwriteKind::Member(5) },
        Overwrite { allow: SPEAK, deny: 0, kind: OverwriteKind::Role(6) },
    ];
    let after = mute_overwrites(before.clone(), 5, deny);
    assert_eq!(after.len(), 3);
    assert_eq!(after[0], before[0]);
    assert_eq!(after[1], before[1]);
    assert_eq!(after[2], Overwrite { allow: 0, deny, kind: OverwriteKind::Role(5) });
}

#[test]
fn case_of_ascii_letters_is_ignored() {
    assert!(eq_ignoring_ascii_case("Muted", "Muted"));
    assert!(eq_ignoring_ascii_case("MUTED", "muted"));
    assert!(eq_ignoring_ascii_case("", ""));
    assert!(eq_ignoring_ascii_case("a1-Z", "A1-z"));
    assert!(!eq_ignoring_ascii_case("Muted", "Mute"));
    assert!(!eq_ignoring_ascii_case("Muted", "Mutex"));
    assert!(!eq_ignoring_ascii_case("É", "é"));
    assert!(!eq_ignoring_ascii_case("@", "`"));
    assert!(!eq_ignoring_ascii_case("[", "{"));
    assert_eq!(to_ascii_lower('A'), 'a');
    assert_eq!(to_ascii_lower('Z'), 'z');
    assert_eq!(to_ascii_lower('a'), 'a');
    assert_eq!(to_ascii_lower('@'), '@');
    assert_eq!(to_ascii_lower('['), '[');
    assert_eq!(to_ascii_lower('É'), 'É');
    for (a, b) in [("Muted", "mUTED"), ("x", "y"), ("Ab", "aB"), ("É", "é"), ("K", "\u{212a}")] {
        assert_eq!(eq_ignoring_ascii_case(a, b), a.eq_ignore_ascii_case(b));
    }
}

#[test]
fn the_role_that_mutes() {
    let unwanted = SEND_MESSAGES | SPEAK | SEND_TTS_MESSAGES | ADD_REACTIONS;
    assert_eq!(muted_role_plan(&Vec::new(), unwanted), MutedRolePlan::Create);
    assert_eq!(
        muted_role_plan(&vec![role(1, "Admin", u64::MAX), role(2, "Mute", 0)], unwanted),
        MutedRolePlan::Create
    );
    assert_eq!(
        muted_role_plan(&vec![role(1, "Admin", u64::MAX), role(2, "mUTED", VIEW_CHANNEL)], unwanted),
        MutedRolePlan::Use(2)
    );
    assert_eq!(
        muted_role_plan(&vec![role(2, "Muted", VIEW_CHANNEL | SPEAK), role(1, "Admin", 0)], unwanted),
        MutedRolePlan::Strip { role_id: 2, permissions: VIEW_CHANNEL }
    );
}

#[test]
fn answers_to_setting_a_log_channel() {
    let (status, answer) = respond(Ok(()));
    assert_eq!(status, 200);
    assert!(answer.success);
    assert_eq!(answer.reason, None);
    let (status, answer) = respond(Err("disk full".to_string()));
    assert_eq!(status, 400);
    assert!(!answer.success);
    assert_eq!(answer.reason, Some("disk full".to_string()));
}
