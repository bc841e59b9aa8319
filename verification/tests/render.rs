use guild_tags::error::TagError;
use guild_tags::guild_logs::Color;
use guild_tags::render::{
    alias_reply, create_error_embed, created_reply, deleted_reply, escape_markup, format_tag_list,
    steers_markup, updated_reply, ToEmbed,
};

#[test]
fn markup_is_escaped() {
    assert_eq!(escape_markup("plain text"), "plain text");
    assert_eq!(escape_markup(""), "");
    assert_eq!(escape_markup("`*_~#<>|"), "\\`\\*\\_\\~\\#\\<\\>\\|");
    assert_eq!(escape_markup("**bold** and _it_"), "\\*\\*bold\\*\\* and \\_it\\_");
    assert_eq!(escape_markup("<@123> said `hi`"), "\\<@123\\> said \\`hi\\`");
    assert_eq!(escape_markup("a\\b"), "a\\b");
    assert_eq!(escape_markup("é✅|日"), "é✅\\|日");
}

#[test]
fn escaping_is_what_replacing_one_by_one_gives() {
    let content = "# Title\n*a* _b_ ~c~ `d` <e> |f| \\ plain";
    let replaced = content
        .replace("`", "\\`")
        .replace("*", "\\*")
        .replace("_", "\\_")
        .replace("~", "\\~")
        .replace("#", "\\#")
        .replace("<", "\\<")
        .replace(">", "\\>")
        .replace("|", "\\|");
    assert_eq!(escape_markup(content), replaced);
}

#[test]
fn the_markup_characters() {
    for c in "`*_~#<>|".chars() {
        assert!(steers_markup(c));
    }
    for c in "\\ab1 @!-".chars() {
        assert!(!steers_markup(c));
    }
}

#[test]
fn the_list_of_tags() {
    assert_eq!(
        format_tag_list(&Vec::new()),
        "No tags found. Try creating a tag with `/tag create`"
    );
    assert_eq!(format_tag_list(&vec!["a".to_string()]), "a");
    assert_eq!(format_tag_list(&vec!["a".to_string(), "b".to_string(), "c".to_string()]), "a, b, c");
}

#[test]
fn replies() {
    assert_eq!(created_reply("x"), "✅ Created tag `x`");
    assert_eq!(deleted_reply("x"), "✅ Deleted tag `x`");
    assert_eq!(updated_reply("x"), "✅ Updated tag `x`");
    assert_eq!(alias_reply("x"), "✅ Created tag alias `x`");
}

#[test]
fn failures_are_shown_as_red_embeds() {
    let embed = create_error_embed("it broke");
    assert_eq!(embed.title, "Error");
    assert_eq!(embed.description, "it broke");
    assert_eq!(embed.color, Color::Red);
    let embed = TagError::DoesntExist("x".to_string()).to_embed();
    assert_eq!(embed.title, "Error");
    assert_eq!(embed.description, "❌ Tag `x` doesn't exist!");
    assert_eq!(embed.color, Color::Red);
}
