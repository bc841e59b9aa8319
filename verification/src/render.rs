//! What the tag commands show: replies, the list of tags, a tag in raw text,
//! and failures as embeds.

use crate::error::TagError;
use crate::guild_logs::Color;
use crate::text::push_char;
use vstd::prelude::*;
use vstd::string::StringExecFns;

verus! {

/// Whether a character steers the markup of a message.
pub open spec fn is_markup(c: char) -> bool {
    c == '`' || c == '*' || c == '_' || c == '~' || c == '#' || c == '<' || c == '>' || c == '|'
}

/// A character as raw text shows it: behind a backslash if it steers markup.
pub open spec fn escaped_char(c: char) -> Seq<char> {
    if is_markup(c) {
        seq!['\\', c]
    } else {
        seq![c]
    }
}

/// A text as raw text shows it: each of its characters escaped, in order.
pub open spec fn escaped(text: Seq<char>) -> Seq<char>
    decreases text.len(),
{
    if text.len() == 0 {
        Seq::empty()
    } else {
        escaped(text.drop_last()) + escaped_char(text.last())
    }
}

/// Tells whether a character steers the markup of a message.
pub fn steers_markup(c: char) -> (b: bool)
    ensures
        b == is_markup(c),
{
    c == '`' || c == '*' || c == '_' || c == '~' || c == '#' || c == '<' || c == '>' || c == '|'
}

/// Escapes a tag's content for display as raw text: a backslash goes before
/// every character that steers markup, and nothing else changes.
pub fn escape_markup(content: &str) -> (raw: String)
    ensures
        raw@ == escaped(content@),
{
    let mut raw = String::new();
    for c in it: content.chars()
        invariant
            it.seq() == content@,
            raw@ == escaped(content@.take(it.index() as int)),
    {
        let ghost done = content@.take(it.index() as int);
        let ghost next = content@.take(it.index() + 1);
        assert(next.drop_last() == done);
        assert(next.last() == c);
        if steers_markup(c) {
            push_char(&mut raw, '\\');
            assert(raw@ == escaped(done) + seq!['\\']);
        }
        push_char(&mut raw, c);
        assert(raw@ == escaped(done) + escaped_char(c));
    }
    assert(content@.take(content@.len() as int) == content@);
    raw
}

/// Escaping keeps a text without markup as it is.
pub proof fn lemma_plain_text_stays(text: Seq<char>)
    requires
        forall|i: int| 0 <= i < text.len() ==> !is_markup(text[i]),
    ensures
        escaped(text) == text,
    decreases text.len(),
{
    if text.len() > 0 {
        lemma_plain_text_stays(text.drop_last());
        assert(text.drop_last().push(text.last()) == text);
    }
}

/// Texts in a row with a separator between each two.
pub open spec fn joined(texts: Seq<Seq<char>>, separator: Seq<char>) -> Seq<char>
    decreases texts.len(),
{
    if texts.len() == 0 {
        Seq::empty()
    } else if texts.len() == 1 {
        texts[0]
    } else {
        joined(texts.drop_last(), separator) + separator + texts.last()
    }
}

/// The texts of a list of strings.
pub open spec fn texts_of(names: Seq<String>) -> Seq<Seq<char>> {
    Seq::new(names.len(), |i: int| names[i]@)
}

/// What the list of a guild's tags shows.
pub open spec fn tag_list(names: Seq<Seq<char>>) -> Seq<char> {
    if names.len() == 0 {
        "No tags found. Try creating a tag with `/tag create`"@
    } else {
        joined(names, ", "@)
    }
}

/// Renders the list of a guild's tags: the names in the order given, with a
/// comma and a space between each two, or a hint where there are none.
pub fn format_tag_list(tags: &Vec<String>) -> (text: String)
    ensures
        text@ == tag_list(texts_of(tags@)),
{
    if tags.is_empty() {
        return String::from_str("No tags found. Try creating a tag with `/tag create`");
    }
    let ghost names = texts_of(tags@);
    let mut text = tags[0].clone();
    assert(names.take(1) == seq![names[0]]);
    let mut i: usize = 1;
    while i < tags.len()
        invariant
            1 <= i <= tags@.len(),
            names == texts_of(tags@),
            text@ == joined(names.take(i as int), ", "@),
        decreases tags@.len() - i,
    {
        let ghost next = names.take(i + 1);
        assert(next.drop_last() == names.take(i as int));
        assert(next.last() == tags@[i as int]@);
        text.append(", ");
        text.append(tags[i].as_str());
        i += 1;
    }
    assert(names.take(tags@.len() as int) == names);
    text
}

/// The reply to a tag that was created.
pub fn created_reply(name: &str) -> (text: String)
    ensures
        text@ == "✅ Created tag `"@ + name@ + "`"@,
{
    let mut text = String::from_str("✅ Created tag `");
    text.append(name);
    text.append("`");
    text
}

/// The reply to a tag that was deleted.
pub fn deleted_reply(name: &str) -> (text: String)
    ensures
        text@ == "✅ Deleted tag `"@ + name@ + "`"@,
{
    let mut text = String::from_str("✅ Deleted tag `");
    text.append(name);
    text.append("`");
    text
}

/// The reply to a tag that was edited.
pub fn updated_reply(name: &str) -> (text: String)
    ensures
        text@ == "✅ Updated tag `"@ + name@ + "`"@,
{
    let mut text = String::from_str("✅ Updated tag `");
    text.append(name);
    text.append("`");
    text
}

/// The reply to an alias that was created.
pub fn alias_reply(alias: &str) -> (text: String)
    ensures
        text@ == "✅ Created tag alias `"@ + alias@ + "`"@,
{
    let mut text = String::from_str("✅ Created tag alias `");
    text.append(alias);
    text.append("`");
    text
}

/// A titled, coloured box of text.
pub struct Embed {
    pub title: String,
    pub description: String,
    pub color: Color,
}

/// The embed that shows a failure: red, titled "Error", with the description
/// given.
pub fn create_error_embed(description: &str) -> (embed: Embed)
    ensures
        embed.title@ == "Error"@,
        embed.description@ == description@,
        embed.color == Color::Red,
{
    Embed {
        title: String::from_str("Error"),
        description: String::from_str(description),
        color: Color::Red,
    }
}

/// Something that can be shown as an embed.
pub trait ToEmbed {
    /// The text that the embed shows.
    spec fn embed_text(&self) -> Seq<char>;

    /// Renders the embed: red, titled "Error", with the text as description.
    fn to_embed(self) -> (embed: Embed) where Self: Sized
        ensures
            embed.title@ == "Error"@,
            embed.description@ == self.embed_text(),
            embed.color == Color::Red,
    ;
}

impl ToEmbed for TagError {
    /// A failure of a tag operation shows its message.
    open spec fn embed_text(&self) -> Seq<char> {
        self@.message()
    }

    fn to_embed(self) -> (embed: Embed) {
        let description = self.message();
        create_error_embed(description.as_str())
    }
}

} // verus!
