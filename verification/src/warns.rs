//! The list of a member's warnings: its pages, what turns them, and what a
//! page shows.

use crate::render::{joined, texts_of};
use crate::text::{decimal, push_decimal};
use vstd::prelude::*;
use vstd::string::StringExecFns;

verus! {

/// How many warnings a page shows at most.
pub const WARNS_PER_PAGE: usize = 10;

/// The number of pages that a number of warnings fills: each page but the
/// last is full, and no page is empty.
pub open spec fn pages(total_warns: nat) -> nat {
    (total_warns + 9) / 10
}

/// Counts the pages that a number of warnings fills.
pub fn total_pages(total_warns: usize) -> (n: usize)
    ensures
        n == pages(total_warns as nat),
{
    if total_warns % WARNS_PER_PAGE == 0 {
        total_warns / WARNS_PER_PAGE
    } else {
        total_warns / WARNS_PER_PAGE + 1
    }
}

/// The warnings that a page shows: from `start` up to, not including, `end`.
pub fn page_bounds(page: usize, total_warns: usize) -> (bounds: (usize, usize))
    requires
        page < pages(total_warns as nat),
    ensures
        bounds.0 == page * 10,
        bounds.1 == if page * 10 + 10 <= total_warns {
            page * 10 + 10
        } else {
            total_warns as int
        },
        bounds.0 < bounds.1 <= total_warns,
{
    let start = page * WARNS_PER_PAGE;
    let end = if total_warns - start >= WARNS_PER_PAGE {
        start + WARNS_PER_PAGE
    } else {
        total_warns
    };
    (start, end)
}

/// What a press of a button asks for.
#[derive(Clone, Copy, Debug, PartialEq, Eq)]
pub enum PageAction {
    First,
    Prev,
    Next,
    Last,
    Other,
}

/// The action that a button's id stands for.
pub open spec fn action_of(custom_id: Seq<char>) -> PageAction {
    if custom_id == "first"@ {
        PageAction::First
    } else if custom_id == "prev"@ {
        PageAction::Prev
    } else if custom_id == "next"@ {
        PageAction::Next
    } else if custom_id == "last"@ {
        PageAction::Last
    } else {
        PageAction::Other
    }
}

/// Reads a button's id as an action.
pub fn parse_action(custom_id: &str) -> (action: PageAction)
    ensures
        action == action_of(custom_id@),
{
    let id = custom_id.to_owned();
    if id == String::from_str("first") {
        PageAction::First
    } else if id == String::from_str("prev") {
        PageAction::Prev
    } else if id == String::from_str("next") {
        PageAction::Next
    } else if id == String::from_str("last") {
        PageAction::Last
    } else {
        PageAction::Other
    }
}

/// The page after an action: the first, the one before if there is one, the
/// one after if there is one, the last, or the same.
pub open spec fn turned(action: PageAction, current_page: int, total_pages: int) -> int {
    match action {
        PageAction::First => 0,
        PageAction::Prev => if current_page > 0 {
            current_page - 1
        } else {
            current_page
        },
        PageAction::Next => if current_page + 1 < total_pages {
            current_page + 1
        } else {
            current_page
        },
        PageAction::Last => total_pages - 1,
        PageAction::Other => current_page,
    }
}

/// Turns the page as an action asks. The page shown stays one of the pages.
pub fn turn_page(action: PageAction, current_page: usize, total_pages: usize) -> (page: usize)
    requires
        current_page < total_pages,
    ensures
        page == turned(action, current_page as int, total_pages as int),
        page < total_pages,
{
    match action {
        PageAction::First => 0,
        PageAction::Prev => if current_page > 0 {
            current_page - 1
        } else {
            current_page
        },
        PageAction::Next => if current_page + 1 < total_pages {
            current_page + 1
        } else {
            current_page
        },
        PageAction::Last => total_pages - 1,
        PageAction::Other => current_page,
    }
}

/// Whether the buttons that lead back are switched off: on the first page.
pub fn back_disabled(page: usize) -> (off: bool)
    ensures
        off == (page == 0),
{
    page == 0
}

/// Whether the buttons that lead on are switched off: on the last page, and
/// past it.
pub fn forward_disabled(page: usize, total_pages: usize) -> (off: bool)
    ensures
        off == (page + 1 >= total_pages),
{
    total_pages == 0 || page >= total_pages - 1
}

/// The foot of a page: which page of how many, and how many warnings in all.
/// Pages are counted from one.
pub fn footer_text(page: usize, total_pages: usize, total_warns: usize) -> (text: String)
    requires
        page < total_pages,
    ensures
        text@ == "Page "@ + decimal((page + 1) as nat) + "/"@ + decimal(total_pages as nat)
            + " • Total Warnings: "@ + decimal(total_warns as nat),
{
    let mut text = String::from_str("Page ");
    push_decimal(&mut text, (page + 1) as u64);
    text.append("/");
    push_decimal(&mut text, total_pages as u64);
    text.append(" • Total Warnings: ");
    push_decimal(&mut text, total_warns as u64);
    text
}

/// The line of one warning: its date in bold, a dash, its reason.
pub fn warn_line(date: &str, reason: &str) -> (text: String)
    ensures
        text@ == "**"@ + date@ + "** - "@ + reason@,
{
    let mut text = String::from_str("**");
    text.append(date);
    text.append("** - ");
    text.append(reason);
    text
}

/// The body of a page: the lines of its warnings, one below the other.
pub fn page_description(lines: &Vec<String>) -> (text: String)
    ensures
        text@ == joined(texts_of(lines@), "\n"@),
{
    if lines.is_empty() {
        return String::new();
    }
    let ghost all = texts_of(lines@);
    let mut text = lines[0].clone();
    assert(all.take(1) == seq![all[0]]);
    let mut i: usize = 1;
    while i < lines.len()
        invariant
            1 <= i <= lines@.len(),
            all == texts_of(lines@),
            text@ == joined(all.take(i as int), "\n"@),
        decreases lines@.len() - i,
    {
        let ghost next = all.take(i + 1);
        assert(next.drop_last() == all.take(i as int));
        assert(next.last() == lines@[i as int]@);
        text.append("\n");
        text.append(lines[i].as_str());
        i += 1;
    }
    assert(all.take(lines@.len() as int) == all);
    text
}

/// The title of the list of a member's warnings.
pub fn warnings_title(user_name: &str) -> (text: String)
    ensures
        text@ == "Warnings for "@ + user_name@,
{
    let mut text = String::from_str("Warnings for ");
    text.append(user_name);
    text
}

/// What is said of a member without warnings.
pub fn no_warnings_reply(user_name: &str) -> (text: String)
    ensures
        text@ == user_name@ + " has no warnings."@,
{
    let mut text = String::from_str(user_name);
    text.append(" has no warnings.");
    text
}

/// The name of the table that holds a guild's warnings: `guild_` and the
/// guild's id in decimal.
pub fn table_name(guild_id: u64) -> (name: String)
    ensures
        name@ == "guild_"@ + decimal(guild_id as nat),
{
    let mut name = String::from_str("guild_");
    push_decimal(&mut name, guild_id);
    name
}

} // verus!
