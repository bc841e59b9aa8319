use guild_tags::dates::{date_or_invalid, format_timestamp_ddmmyyyy};
use guild_tags::warns::{
    back_disabled, footer_text, forward_disabled, no_warnings_reply, page_bounds,
    page_description, parse_action, table_name, total_pages, turn_page, warn_line,
    warnings_title, PageAction, WARNS_PER_PAGE,
};

#[test]
fn pages_are_counted() {
    assert_eq!(WARNS_PER_PAGE, 10);
    assert_eq!(total_pages(0), 0);
    assert_eq!(total_pages(1), 1);
    assert_eq!(total_pages(9), 1);
    assert_eq!(total_pages(10), 1);
    assert_eq!(total_pages(11), 2);
    assert_eq!(total_pages(20), 2);
    assert_eq!(total_pages(21), 3);
    assert_eq!(total_pages(usize::MAX), usize::MAX / 10 + 1);
}

#[test]
fn a_page_shows_up_to_ten() {
    assert_eq!(page_bounds(0, 1), (0, 1));
    assert_eq!(page_bounds(0, 10), (0, 10));
    assert_eq!(page_bounds(0, 25), (0, 10));
    assert_eq!(page_bounds(1, 25), (10, 20));
    assert_eq!(page_bounds(2, 25), (20, 25));
    assert_eq!(page_bounds(usize::MAX / 10, usize::MAX), (usize::MAX - 5, usize::MAX));
}

#[test]
fn buttons_are_read() {
    assert_eq!(parse_action("first"), PageAction::First);
    assert_eq!(parse_action("prev"), PageAction::Prev);
    assert_eq!(parse_action("next"), PageAction::Next);
    assert_eq!(parse_action("last"), PageAction::Last);
    assert_eq!(parse_action("First"), PageAction::Other);
    assert_eq!(parse_action(""), PageAction::Other);
}

#[test]
fn pages_are_turned() {
    assert_eq!(turn_page(PageAction::First, 2, 3), 0);
    assert_eq!(turn_page(PageAction::Prev, 2, 3), 1);
    assert_eq!(turn_page(PageAction::Prev, 0, 3), 0);
    assert_eq!(turn_page(PageAction::Next, 0, 3), 1);
    assert_eq!(turn_page(PageAction::Next, 2, 3), 2);
    assert_eq!(turn_page(PageAction::Last, 0, 3), 2);
    assert_eq!(turn_page(PageAction::Other, 1, 3), 1);
    assert_eq!(turn_page(PageAction::Last, 0, 1), 0);
    assert_eq!(turn_page(PageAction::Next, 0, 1), 0);
}

#[test]
fn buttons_are_switched_off_at_the_ends() {
    assert!(back_disabled(0));
    assert!(!back_disabled(1));
    assert!(forward_disabled(2, 3));
    assert!(!forward_disabled(1, 3));
    assert!(forward_disabled(0, 1));
    assert!(forward_disabled(0, 0));
    assert!(forward_disabled(usize::MAX, usize::MAX));
}

#[test]
fn what_a_page_shows() {
    assert_eq!(footer_text(0, 3, 25), "Page 1/3 • Total Warnings: 25");
    assert_eq!(footer_text(2, 3, 25), "Page 3/3 • Total Warnings: 25");
    assert_eq!(warn_line("05/03/2024", "spam"), "**05/03/2024** - spam");
    assert_eq!(page_description(&Vec::new()), "");
    assert_eq!(page_description(&vec!["a".to_string()]), "a");
    assert_eq!(page_description(&vec!["a".to_string(), "b".to_string()]), "a\nb");
    assert_eq!(warnings_title("bob"), "Warnings for bob");
    assert_eq!(no_warnings_reply("bob"), "bob has no warnings.");
    assert_eq!(table_name(42), "guild_42");
}

#[test]
fn timestamps_are_shown_as_dates() {
    assert_eq!(format_timestamp_ddmmyyyy("2024-03-05T10:00:00Z"), "05/03/2024");
    assert_eq!(format_timestamp_ddmmyyyy("2024-03-05T10:00:00+00:00"), "05/03/2024");
    assert_eq!(format_timestamp_ddmmyyyy("2024-12-31T23:30:00-01:00"), "01/01/2025");
    assert_eq!(format_timestamp_ddmmyyyy("2024-01-01T00:30:00+01:00"), "31/12/2023");
    assert_eq!(format_timestamp_ddmmyyyy("1999-07-04T12:34:56.789Z"), "04/07/1999");
}

#[test]
fn what_is_no_timestamp_is_an_invalid_date() {
    assert_eq!(format_timestamp_ddmmyyyy(""), "Invalid date");
    assert_eq!(format_timestamp_ddmmyyyy("yesterday"), "Invalid date");
    assert_eq!(format_timestamp_ddmmyyyy("2024-03-05"), "Invalid date");
    assert_eq!(format_timestamp_ddmmyyyy("2024-13-05T10:00:00Z"), "Invalid date");
    assert_eq!(date_or_invalid(None), "Invalid date");
    assert_eq!(date_or_invalid(Some("05/03/2024".to_string())), "05/03/2024");
}
