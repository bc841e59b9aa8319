//! What the moderation commands say and decide: replies, notices to the
//! member, and the permissions of the role that mutes.

use vstd::prelude::*;
use vstd::string::StringExecFns;

verus! {

/// The reason given, or the words that stand for none.
pub fn reason_text(reason: Option<String>) -> (text: String)
    ensures
        text@ == match reason {
            Some(given) => given@,
            None => "No reason provided"@,
        },
{
    match reason {
        Some(given) => given,
        None => String::from_str("No reason provided"),
    }
}

/// The name of a guild, or the words that stand for a guild whose name is not
/// known.
pub fn guild_name_text(name: Option<String>) -> (text: String)
    ensures
        text@ == match name {
            Some(known) => known@,
            None => "Unknown server"@,
        },
{
    match name {
        Some(known) => known,
        None => String::from_str("Unknown server"),
    }
}

/// The notice sent to a member about what was done to them: the guild in
/// bold, what was done, and below it the reason.
pub fn mod_action_dm(guild_name: &str, kind: &str, reason: &str) -> (text: String)
    ensures
        text@ == "**"@ + guild_name@ + "**: You have been "@ + kind@ + ".\n**Reason**: "@
            + reason@,
{
    let mut text = String::from_str("**");
    text.append(guild_name);
    text.append("**: You have been ");
    text.append(kind);
    text.append(".\n**Reason**: ");
    text.append(reason);
    text
}

/// The line that says whether the notice reached the member.
pub open spec fn dm_line(dm_sent: bool) -> Seq<char> {
    if dm_sent {
        "✅ DM sent successfully."@
    } else {
        "❌ Could not send DM."@
    }
}

/// The line that says that an action was done to a member.
pub open spec fn done_line(done: Seq<char>, user_name: Seq<char>) -> Seq<char> {
    "✅ "@ + done + " "@ + user_name + ".\n"@
}

/// The line that says that an action failed, and why.
pub open spec fn failed_line(action: Seq<char>, why: Seq<char>) -> Seq<char> {
    "❌ Failed to "@ + action + " user: "@ + why + "\n"@
}

/// Appends the line that says whether the notice reached the member.
fn push_dm_line(text: &mut String, dm_sent: bool)
    ensures
        final(text)@ == old(text)@ + dm_line(dm_sent),
{
    if dm_sent {
        text.append("✅ DM sent successfully.");
    } else {
        text.append("❌ Could not send DM.");
    }
}

/// Renders the line that says that an action was done to a member.
fn render_done_line(done: &str, user_name: &str) -> (text: String)
    ensures
        text@ == done_line(done@, user_name@),
{
    let mut text = String::from_str("✅ ");
    text.append(done);
    text.append(" ");
    text.append(user_name);
    text.append(".\n");
    text
}

/// Renders the line that says that an action failed, and why.
fn render_failed_line(action: &str, why: &str) -> (text: String)
    ensures
        text@ == failed_line(action@, why@),
{
    let mut text = String::from_str("❌ Failed to ");
    text.append(action);
    text.append(" user: ");
    text.append(why);
    text.append("\n");
    text
}

/// The reply to an action that is taken before the member is told: a failed
/// action is all that is said; after one that was done, whether the notice
/// reached the member. `dm_sent` is read only where the action was done.
pub fn reply_action_first(
    action: &str,
    done: &str,
    user_name: &str,
    failure: Option<String>,
    dm_sent: bool,
) -> (text: String)
    ensures
        text@ == match failure {
            Some(why) => failed_line(action@, why@),
            None => done_line(done@, user_name@) + dm_line(dm_sent),
        },
{
    match failure {
        Some(why) => render_failed_line(action, why.as_str()),
        None => {
            let mut text = render_done_line(done, user_name);
            push_dm_line(&mut text, dm_sent);
            text
        },
    }
}

/// The reply to an action that is taken after the member was told: after a
/// failed action the notice counts as sent; after one that was done, whether
/// the notice reached the member.
pub fn reply_notice_first(
    action: &str,
    done: &str,
    user_name: &str,
    failure: Option<String>,
    dm_sent: bool,
) -> (text: String)
    ensures
        text@ == match failure {
            Some(why) => failed_line(action@, why@) + dm_line(true),
            None => done_line(done@, user_name@) + dm_line(dm_sent),
        },
{
    match failure {
        Some(why) => {
            let mut text = render_failed_line(action, why.as_str());
            push_dm_line(&mut text, true);
            text
        },
        None => {
            let mut text = render_done_line(done, user_name);
            push_dm_line(&mut text, dm_sent);
            text
        },
    }
}

/// The reply to a mute: that it was done, whether the notice reached the
/// member, and a complaint where the channels could not be updated.
pub fn mute_reply(user_name: &str, dm_sent: bool, channels_updated: bool) -> (text: String)
    ensures
        text@ == done_line("Muted"@, user_name@) + dm_line(dm_sent) + if channels_updated {
            Seq::<char>::empty()
        } else {
            "❌ Could not update channel permissions."@
        },
{
    let mut text = render_done_line("Muted", user_name);
    push_dm_line(&mut text, dm_sent);
    if !channels_updated {
        text.append("❌ Could not update channel permissions.");
    }
    text
}

/// The reply to an unban: that it was done, or that it failed and why.
pub fn unban_reply(user_name: &str, failure: Option<String>) -> (text: String)
    ensures
        text@ == match failure {
            Some(why) => "❌ Failed to unban user: "@ + why@,
            None => "✅ Unbanned "@ + user_name@ + "."@,
        },
{
    match failure {
        Some(why) => {
            let mut text = String::from_str("❌ Failed to unban user: ");
            text.append(why.as_str());
            text
        },
        None => {
            let mut text = String::from_str("✅ Unbanned ");
            text.append(user_name);
            text.append(".");
            text
        },
    }
}

/// The reply to a warning: that it was given, or that the notice did not
/// reach the member.
pub fn warn_reply(user_name: &str, dm_sent: bool) -> (text: String)
    ensures
        text@ == if dm_sent {
            "✅ warned "@ + user_name@ + "."@
        } else {
            "❌ Could not send DM."@
        },
{
    if dm_sent {
        let mut text = String::from_str("✅ warned ");
        text.append(user_name);
        text.append(".");
        text
    } else {
        String::from_str("❌ Could not send DM.")
    }
}

/// What a report says: the reported message, and the reason in a code block.
pub fn report_description(content: &str, reason: &str) -> (text: String)
    ensures
        text@ == "**Message content:**\n"@ + content@ + "\n\n**Reason:**\n```\n"@ + reason@
            + "\n```\n"@,
{
    let mut text = String::from_str("**Message content:**\n");
    text.append(content);
    text.append("\n\n**Reason:**\n```\n");
    text.append(reason);
    text.append("\n```\n");
    text
}

/// Whose permissions an overwrite sets: a member's or a role's.
#[derive(Clone, Copy, Debug, PartialEq, Eq, Structural)]
pub enum OverwriteKind {
    Member(u64),
    Role(u64),
}

/// The permissions that a channel allows and denies to a member or a role,
/// as bit sets.
#[derive(Clone, Copy, Debug, PartialEq, Eq, Structural)]
pub struct Overwrite {
    pub allow: u64,
    pub deny: u64,
    pub kind: OverwriteKind,
}

/// The permissions left once the unwanted ones are taken away, if any of
/// them was there.
pub fn strip_unwanted(permissions: u64, unwanted: u64) -> (stripped: Option<u64>)
    ensures
        stripped == if permissions & unwanted != 0 {
            Some(permissions & !unwanted)
        } else {
            None
        },
{
    if permissions & unwanted != 0 {
        Some(permissions & !unwanted)
    } else {
        None
    }
}

/// The first position at which the overwrites speak of this role, or their
/// length where none does.
pub open spec fn role_position(overwrites: Seq<Overwrite>, role_id: u64) -> int
    decreases overwrites.len(),
{
    if overwrites.len() == 0 {
        0
    } else if overwrites[0].kind == OverwriteKind::Role(role_id) {
        0
    } else {
        1 + role_position(overwrites.drop_first(), role_id)
    }
}

/// The overwrites of a channel once the muting role is denied what it must
/// not do: where the overwrites speak of the role, the first that does denies
/// the permissions besides what it denied and allows them no longer;
/// otherwise one is added that allows nothing and denies them.
pub open spec fn muted(overwrites: Seq<Overwrite>, role_id: u64, deny_permissions: u64) -> Seq<
    Overwrite,
> {
    let at = role_position(overwrites, role_id);
    if at < overwrites.len() {
        overwrites.update(
            at,
            Overwrite {
                allow: overwrites[at].allow & !deny_permissions,
                deny: overwrites[at].deny | deny_permissions,
                kind: overwrites[at].kind,
            },
        )
    } else {
        overwrites.push(
            Overwrite { allow: 0, deny: deny_permissions, kind: OverwriteKind::Role(role_id) },
        )
    }
}

/// The position is within the overwrites or just past them; before it no
/// overwrite speaks of the role, and at it one does.
pub proof fn lemma_role_position(overwrites: Seq<Overwrite>, role_id: u64)
    ensures
        0 <= role_position(overwrites, role_id) <= overwrites.len(),
        forall|i: int|
            0 <= i < role_position(overwrites, role_id) ==> overwrites[i].kind
                != OverwriteKind::Role(role_id),
        role_position(overwrites, role_id) < overwrites.len() ==> overwrites[role_position(
            overwrites,
            role_id,
        )].kind == OverwriteKind::Role(role_id),
    decreases overwrites.len(),
{
    if overwrites.len() > 0 && overwrites[0].kind != OverwriteKind::Role(role_id) {
        let rest = overwrites.drop_first();
        lemma_role_position(rest, role_id);
        assert forall|i: int| 0 <= i < role_position(overwrites, role_id) implies overwrites[i].kind
            != OverwriteKind::Role(role_id) by {
            if i > 0 {
                assert(overwrites[i] == rest[i - 1]);
            }
        }
        assert(overwrites[role_position(overwrites, role_id)] == rest[role_position(rest, role_id)]
            || role_position(overwrites, role_id) == overwrites.len());
    }
}

/// Once a channel's overwrites are set for muting, they speak of the role,
/// and what they say of it first denies every permission that was to be
/// denied and allows none of them.
pub proof fn lemma_muted_is_denied(overwrites: Seq<Overwrite>, role_id: u64, deny_permissions: u64)
    ensures
        ({
            let after = muted(overwrites, role_id, deny_permissions);
            let at = role_position(after, role_id);
            &&& at == role_position(overwrites, role_id)
            &&& at < after.len()
            &&& after[at].kind == OverwriteKind::Role(role_id)
            &&& after[at].deny & deny_permissions == deny_permissions
            &&& after[at].allow & deny_permissions == 0
        }),
{
    let after = muted(overwrites, role_id, deny_permissions);
    let at = role_position(overwrites, role_id);
    lemma_role_position(overwrites, role_id);
    lemma_role_position(after, role_id);
    assert(after[at].kind == OverwriteKind::Role(role_id));
    assert(role_position(after, role_id) == at) by {
        let found = role_position(after, role_id);
        if found < at {
            assert(after[found].kind == overwrites[found].kind);
        }
    }
    let allow = if at < overwrites.len() {
        overwrites[at].allow
    } else {
        0
    };
    let deny = if at < overwrites.len() {
        overwrites[at].deny
    } else {
        0
    };
    assert((deny | deny_permissions) & deny_permissions == deny_permissions) by (bit_vector);
    assert((allow & !deny_permissions) & deny_permissions == 0) by (bit_vector);
    assert(0u64 & deny_permissions == 0) by (bit_vector);
    assert(deny_permissions & deny_permissions == deny_permissions) by (bit_vector);
    assert(0u64 | deny_permissions == deny_permissions) by (bit_vector);
}

/// Sets a channel's overwrites for muting.
pub fn mute_overwrites(overwrites: Vec<Overwrite>, role_id: u64, deny_permissions: u64) -> (after:
    Vec<Overwrite>)
    ensures
        after@ == muted(overwrites@, role_id, deny_permissions),
{
    let mut after = overwrites;
    let mut i: usize = 0;
    assert(overwrites@.skip(0) == overwrites@);
    while i < after.len()
        invariant
            after@ == overwrites@,
            i <= after@.len(),
            role_position(overwrites@, role_id) == i + role_position(
                overwrites@.skip(i as int),
                role_id,
            ),
        decreases after@.len() - i,
    {
        let current = after[i];
        assert(overwrites@.skip(i as int)[0] == current);
        let is_role = match current.kind {
            OverwriteKind::Role(id) => id == role_id,
            OverwriteKind::Member(_) => false,
        };
        if is_role {
            after.set(
                i,
                Overwrite {
                    allow: current.allow & !deny_permissions,
                    deny: current.deny | deny_permissions,
                    kind: current.kind,
                },
            );
            return after;
        }
        assert(overwrites@.skip(i as int).drop_first() == overwrites@.skip(i + 1));
        i += 1;
    }
    assert(overwrites@.skip(i as int).len() == 0);
    after.push(Overwrite { allow: 0, deny: deny_permissions, kind: OverwriteKind::Role(role_id) });
    after
}

/// A character with an ASCII capital turned into its small letter.
pub open spec fn ascii_lower(c: char) -> char {
    if 'A' <= c <= 'Z' {
        ((c as u8) + 32) as char
    } else {
        c
    }
}

/// Two texts are the same but for the case of their ASCII letters.
pub open spec fn same_ignoring_ascii_case(a: Seq<char>, b: Seq<char>) -> bool {
    &&& a.len() == b.len()
    &&& forall|i: int| 0 <= i < a.len() ==> ascii_lower(a[i]) == ascii_lower(b[i])
}

/// Turns an ASCII capital into its small letter.
pub fn to_ascii_lower(c: char) -> (lower: char)
    ensures
        lower == ascii_lower(c),
{
    if 'A' <= c && c <= 'Z' {
        ((c as u8) + 32) as char
    } else {
        c
    }
}

/// The characters of a text.
fn chars_of(text: &str) -> (chars: Vec<char>)
    ensures
        chars@ == text@,
{
    let mut chars: Vec<char> = Vec::new();
    for c in it: text.chars()
        invariant
            it.seq() == text@,
            chars@ == text@.take(it.index() as int),
    {
        chars.push(c);
    }
    assert(text@.take(text@.len() as int) == text@);
    chars
}

/// Tells whether two texts are the same but for the case of their ASCII
/// letters.
pub fn eq_ignoring_ascii_case(a: &str, b: &str) -> (same: bool)
    ensures
        same == same_ignoring_ascii_case(a@, b@),
{
    let left = chars_of(a);
    let right = chars_of(b);
    if left.len() != right.len() {
        return false;
    }
    let mut i: usize = 0;
    while i < left.len()
        invariant
            left@ == a@,
            right@ == b@,
            left@.len() == right@.len(),
            i <= left@.len(),
            forall|j: int| 0 <= j < i ==> ascii_lower(a@[j]) == ascii_lower(b@[j]),
        decreases left@.len() - i,
    {
        if to_ascii_lower(left[i]) != to_ascii_lower(right[i]) {
            return false;
        }
        i += 1;
    }
    true
}

/// What the muting needs to know of a role.
pub struct RoleInfo {
    pub id: u64,
    pub name: String,
    pub permissions: u64,
}

/// How the role that mutes is come by.
#[derive(Clone, Copy, Debug, PartialEq, Eq, Structural)]
pub enum MutedRolePlan {
    /// A role named for muting exists and is fit as it is.
    Use(u64),
    /// A role named for muting exists; it is to be left with these
    /// permissions, the unwanted ones taken away.
    Strip { role_id: u64, permissions: u64 },
    /// No role is named for muting; one is to be made.
    Create,
}

/// Whether a role is named for muting: "Muted", in whatever case.
pub open spec fn is_muted_name(name: Seq<char>) -> bool {
    same_ignoring_ascii_case(name, "Muted"@)
}

/// What is to be done with a role that is named for muting.
pub open spec fn plan_for(role: RoleInfo, unwanted: u64) -> MutedRolePlan {
    if role.permissions & unwanted != 0 {
        MutedRolePlan::Strip { role_id: role.id, permissions: role.permissions & !unwanted }
    } else {
        MutedRolePlan::Use(role.id)
    }
}

/// Decides how the role that mutes is come by: a role of the guild that is
/// named for muting is used, stripped of unwanted permissions where it has
/// any; where there is none, one is made. Of several roles so named, which
/// is taken is left open.
pub fn muted_role_plan(roles: &Vec<RoleInfo>, unwanted: u64) -> (plan: MutedRolePlan)
    ensures
        plan == MutedRolePlan::Create ==> forall|i: int|
            0 <= i < roles@.len() ==> !is_muted_name(#[trigger] roles@[i].name@),
        plan != MutedRolePlan::Create ==> exists|i: int|
            0 <= i < roles@.len() && is_muted_name(#[trigger] roles@[i].name@) && plan == plan_for(
                roles@[i],
                unwanted,
            ),
{
    let mut i: usize = 0;
    while i < roles.len()
        invariant
            i <= roles@.len(),
            forall|j: int| 0 <= j < i ==> !is_muted_name(#[trigger] roles@[j].name@),
        decreases roles@.len() - i,
    {
        if eq_ignoring_ascii_case(roles[i].name.as_str(), "Muted") {
            let plan = match strip_unwanted(roles[i].permissions, unwanted) {
                Some(permissions) => MutedRolePlan::Strip { role_id: roles[i].id, permissions },
                None => MutedRolePlan::Use(roles[i].id),
            };
            assert(plan == plan_for(roles@[i as int], unwanted));
            return plan;
        }
        i += 1;
    }
    MutedRolePlan::Create
}

} // verus!
