//! The tag operations as mathematics: what each one answers and how it changes
//! the tags of a guild, over maps from names to stored bytes.

use crate::error::TagFault;
use crate::fuzzy::resolves_to;
use crate::store::{entries_of, StoreMap};
use crate::text::decimal;
use vstd::prelude::*;
use vstd::utf8::{decode_utf8, encode_utf8, valid_utf8};

verus! {

/// The tags of one guild: stored content bytes by name.
pub type TagMap = Map<Seq<char>, Seq<u8>>;

/// The tags of one guild within a store: the entries of the partition that
/// the guild's id names in decimal.
pub open spec fn tags_of(store: StoreMap, guild_id: u64) -> TagMap {
    entries_of(store, decimal(guild_id as nat))
}

/// What creating `name` answers: it fails where the exact name is taken.
pub open spec fn create_result(tags: TagMap, name: Seq<char>) -> Result<(), TagFault> {
    if tags.contains_key(name) {
        Err(TagFault::AlreadyExists(name))
    } else {
        Ok(())
    }
}

/// The tags after creating `name`: one more where the name was free, the same
/// where it was taken.
pub open spec fn create_state(tags: TagMap, name: Seq<char>, content: Seq<char>) -> TagMap {
    if tags.contains_key(name) {
        tags
    } else {
        tags.insert(name, encode_utf8(content))
    }
}

/// `r` is what a lookup of the exact name `resolved` answers, where `requested`
/// is the name that was first asked for: the stored text, `Utf8Error` where the
/// stored bytes are no text, `DoesntExist` with the requested name where
/// nothing is stored.
pub open spec fn lookup(
    tags: TagMap,
    requested: Seq<char>,
    resolved: Seq<char>,
    r: Result<Seq<char>, TagFault>,
) -> bool {
    if !tags.contains_key(resolved) {
        r == Err::<Seq<char>, TagFault>(TagFault::DoesntExist(requested))
    } else if valid_utf8(tags[resolved]) {
        r == Ok::<Seq<char>, TagFault>(decode_utf8(tags[resolved]))
    } else {
        r matches Err(TagFault::Utf8Error(_))
    }
}

/// `r` is an answer that fetching `name` may give: the lookup of a name that
/// `name` resolves to.
pub open spec fn get_outcome(tags: TagMap, name: Seq<char>, r: Result<Seq<char>, TagFault>) -> bool {
    exists|resolved: Seq<char>| #[trigger]
        resolves_to(name, tags.dom(), resolved) && lookup(tags, name, resolved, r)
}

/// Editing with `name` resolved to `resolved`: the content of an existing tag
/// is replaced and its name answered; otherwise nothing changes.
pub open spec fn edit_step(
    tags: TagMap,
    requested: Seq<char>,
    resolved: Seq<char>,
    content: Seq<char>,
    r: Result<Seq<char>, TagFault>,
    after: TagMap,
) -> bool {
    if tags.contains_key(resolved) {
        r == Ok::<Seq<char>, TagFault>(resolved) && after == tags.insert(
            resolved,
            encode_utf8(content),
        )
    } else {
        r == Err::<Seq<char>, TagFault>(TagFault::DoesntExist(requested)) && after == tags
    }
}

/// `r` and `after` are an answer and the tags that editing `name` may give.
pub open spec fn edit_outcome(
    tags: TagMap,
    name: Seq<char>,
    content: Seq<char>,
    r: Result<Seq<char>, TagFault>,
    after: TagMap,
) -> bool {
    exists|resolved: Seq<char>| #[trigger]
        resolves_to(name, tags.dom(), resolved) && edit_step(
            tags,
            name,
            resolved,
            content,
            r,
            after,
        )
}

/// Deleting with `name` resolved to `resolved`: an existing tag is removed and
/// its name answered; otherwise nothing changes.
pub open spec fn delete_step(
    tags: TagMap,
    requested: Seq<char>,
    resolved: Seq<char>,
    r: Result<Seq<char>, TagFault>,
    after: TagMap,
) -> bool {
    if tags.contains_key(resolved) {
        r == Ok::<Seq<char>, TagFault>(resolved) && after == tags.remove(resolved)
    } else {
        r == Err::<Seq<char>, TagFault>(TagFault::DoesntExist(requested)) && after == tags
    }
}

/// `r` and `after` are an answer and the tags that deleting `name` may give.
pub open spec fn delete_outcome(
    tags: TagMap,
    name: Seq<char>,
    r: Result<Seq<char>, TagFault>,
    after: TagMap,
) -> bool {
    exists|resolved: Seq<char>| #[trigger]
        resolves_to(name, tags.dom(), resolved) && delete_step(tags, name, resolved, r, after)
}

/// Aliasing once the existing tag was fetched with answer `fetched`: a failure
/// to fetch is the answer and nothing changes; otherwise the alias is created
/// with the fetched text.
pub open spec fn alias_step(
    tags: TagMap,
    alias: Seq<char>,
    fetched: Result<Seq<char>, TagFault>,
    r: Result<(), TagFault>,
    after: TagMap,
) -> bool {
    match fetched {
        Ok(content) => r == create_result(tags, alias) && after == create_state(
            tags,
            alias,
            content,
        ),
        Err(e) => r == Err::<(), TagFault>(e) && after == tags,
    }
}

/// `r` and `after` are an answer and the tags that aliasing `name` as `alias`
/// may give.
pub open spec fn alias_outcome(
    tags: TagMap,
    name: Seq<char>,
    alias: Seq<char>,
    r: Result<(), TagFault>,
    after: TagMap,
) -> bool {
    exists|fetched: Result<Seq<char>, TagFault>| #[trigger]
        get_outcome(tags, name, fetched) && alias_step(tags, alias, fetched, r, after)
}

} // verus!
