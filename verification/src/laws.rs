//! What holds of the tag operations taken together, proved from the model
//! that their contracts are stated in.

use crate::error::TagFault;
use crate::fuzzy::{is_best, jaro_winkler_bits, resolves_to, score, settled};
use crate::model::{
    alias_outcome, alias_step, create_result, create_state, delete_outcome, edit_outcome,
    get_outcome, tags_of, TagMap,
};
use crate::settings::{be_bytes, channel_in, lemma_be_round_trip};
use crate::store::{untouched_elsewhere, StoreMap};
use crate::text::{decimal, lemma_decimal_injective};
use vstd::prelude::*;
use vstd::utf8::{decode_utf8, valid_utf8};

verus! {

/// Resolution of `name` against `names` can give nothing but `name` itself.
pub open spec fn resolves_only_to_itself(name: Seq<char>, names: Set<Seq<char>>) -> bool {
    forall|resolved: Seq<char>| #[trigger]
        resolves_to(name, names, resolved) ==> resolved == name
}

/// A name that exists and is more similar to itself than any other existing
/// name is to it resolves only to itself.
pub proof fn lemma_closest_to_itself(name: Seq<char>, names: Set<Seq<char>>)
    requires
        names.contains(name),
        forall|other: Seq<char>|
            names.contains(other) && other != name ==> score(name, other) < score(name, name),
    ensures
        resolves_only_to_itself(name, names),
{
    assert forall|resolved: Seq<char>| #[trigger]
        resolves_to(name, names, resolved) implies resolved == name by {
        if resolved != name {
            let best = choose|best: Seq<char>| #[trigger]
                is_best(name, names, best) && resolved == settled(
                    name,
                    best,
                    jaro_winkler_bits(name, best),
                );
            assert(score(name, name) <= score(name, best));
        }
    }
}

/// Where a name is the only one that exists, it resolves only to itself.
pub proof fn lemma_alone_resolves_to_itself(name: Seq<char>, names: Set<Seq<char>>)
    requires
        forall|other: Seq<char>| names.contains(other) <==> other == name,
    ensures
        resolves_only_to_itself(name, names),
{
    lemma_closest_to_itself(name, names);
}

/// Where no name exists, every request resolves only to itself.
pub proof fn lemma_nothing_to_resolve_to(name: Seq<char>, names: Set<Seq<char>>)
    requires
        forall|other: Seq<char>| !names.contains(other),
    ensures
        resolves_only_to_itself(name, names),
{
}

/// A tag is created once: after a creation that succeeded, creating the same
/// name again fails with `AlreadyExists` and changes nothing, whatever the
/// contents.
pub proof fn law_create_is_unique(
    tags: TagMap,
    name: Seq<char>,
    first: Seq<char>,
    second: Seq<char>,
)
    requires
        create_result(tags, name) is Ok,
    ensures
        create_result(create_state(tags, name, first), name) == Err::<(), TagFault>(
            TagFault::AlreadyExists(name),
        ),
        create_state(create_state(tags, name, first), name, second) == create_state(
            tags,
            name,
            first,
        ),
{
}

/// What was created is what is fetched: after a creation that succeeded,
/// fetching the name answers the content exactly, provided that the name
/// resolves only to itself among the names that then exist.
pub proof fn law_create_then_get(
    tags: TagMap,
    name: Seq<char>,
    content: Seq<char>,
    fetched: Result<Seq<char>, TagFault>,
)
    requires
        create_result(tags, name) is Ok,
        resolves_only_to_itself(name, create_state(tags, name, content).dom()),
        get_outcome(create_state(tags, name, content), name, fetched),
    ensures
        fetched == Ok::<Seq<char>, TagFault>(content),
{
    vstd::utf8::encode_utf8_valid_utf8(content);
    vstd::utf8::encode_utf8_decode_utf8(content);
}

/// The first tag of a guild is fetched as it was created, whatever its name
/// and content.
pub proof fn law_first_tag_round_trip(
    name: Seq<char>,
    content: Seq<char>,
    fetched: Result<Seq<char>, TagFault>,
)
    requires
        get_outcome(create_state(Map::empty(), name, content), name, fetched),
    ensures
        fetched == Ok::<Seq<char>, TagFault>(content),
{
    let tags = create_state(Map::empty(), name, content);
    lemma_alone_resolves_to_itself(name, tags.dom());
    law_create_then_get(Map::empty(), name, content, fetched);
}

/// In a guild without tags every fetch fails with `DoesntExist` of the very
/// name that was asked for.
pub proof fn law_no_tags_nothing_found(
    tags: TagMap,
    name: Seq<char>,
    fetched: Result<Seq<char>, TagFault>,
)
    requires
        forall|other: Seq<char>| !tags.contains_key(other),
        get_outcome(tags, name, fetched),
    ensures
        fetched == Err::<Seq<char>, TagFault>(TagFault::DoesntExist(name)),
{
    lemma_nothing_to_resolve_to(name, tags.dom());
}

/// A deleted tag is gone: the only tag of a guild is deleted under its own
/// name, which is answered, and fetching it afterwards fails with
/// `DoesntExist`.
pub proof fn law_delete_then_get(
    name: Seq<char>,
    content: Seq<char>,
    deleted: Result<Seq<char>, TagFault>,
    after: TagMap,
    fetched: Result<Seq<char>, TagFault>,
)
    requires
        delete_outcome(create_state(Map::empty(), name, content), name, deleted, after),
        get_outcome(after, name, fetched),
    ensures
        deleted == Ok::<Seq<char>, TagFault>(name),
        after == Map::<Seq<char>, Seq<u8>>::empty(),
        fetched == Err::<Seq<char>, TagFault>(TagFault::DoesntExist(name)),
{
    let tags = create_state(Map::empty(), name, content);
    lemma_alone_resolves_to_itself(name, tags.dom());
    assert(after =~= Map::<Seq<char>, Seq<u8>>::empty());
    law_no_tags_nothing_found(after, name, fetched);
}

/// An edit changes one tag at most: every name but the one that the edit
/// answers keeps its presence and its stored bytes.
pub proof fn law_edit_leaves_the_rest(
    tags: TagMap,
    name: Seq<char>,
    content: Seq<char>,
    edited: Result<Seq<char>, TagFault>,
    after: TagMap,
    other: Seq<char>,
)
    requires
        edit_outcome(tags, name, content, edited, after),
        edited != Ok::<Seq<char>, TagFault>(other),
    ensures
        after.contains_key(other) == tags.contains_key(other),
        after.contains_key(other) ==> after[other] == tags[other],
        after.dom() == tags.dom(),
{
    assert(after.dom() =~= tags.dom());
}

/// An alias is a copy: after aliasing succeeded, the alias holds the text
/// that fetching the aliased name gave, and no other tag has changed.
pub proof fn law_alias_is_a_copy(
    tags: TagMap,
    name: Seq<char>,
    alias: Seq<char>,
    after: TagMap,
)
    requires
        alias_outcome(tags, name, alias, Ok(()), after),
    ensures
        !tags.contains_key(alias),
        after.contains_key(alias),
        valid_utf8(after[alias]),
        get_outcome(tags, name, Ok(decode_utf8(after[alias]))),
        after.remove(alias) == tags,
{
    let fetched = choose|fetched: Result<Seq<char>, TagFault>| #[trigger]
        get_outcome(tags, name, fetched) && alias_step(tags, alias, fetched, Ok(()), after);
    let content = fetched->Ok_0;
    vstd::utf8::encode_utf8_valid_utf8(content);
    vstd::utf8::encode_utf8_decode_utf8(content);
    assert(after.remove(alias) =~= tags);
}

/// An alias does not follow the tag it was copied from: after aliasing succeeded, an edit
/// that lands on another tag than the alias leaves the alias with the text it
/// was made with, provided that the alias resolves only to itself.
pub proof fn law_alias_is_independent(
    tags: TagMap,
    name: Seq<char>,
    alias: Seq<char>,
    aliased: TagMap,
    edit_name: Seq<char>,
    edit_content: Seq<char>,
    edited: Result<Seq<char>, TagFault>,
    after: TagMap,
    fetched: Result<Seq<char>, TagFault>,
)
    requires
        alias_outcome(tags, name, alias, Ok(()), aliased),
        edit_outcome(aliased, edit_name, edit_content, edited, after),
        edited != Ok::<Seq<char>, TagFault>(alias),
        resolves_only_to_itself(alias, after.dom()),
        get_outcome(after, alias, fetched),
    ensures
        fetched == Ok::<Seq<char>, TagFault>(decode_utf8(aliased[alias])),
        get_outcome(tags, name, fetched),
{
    law_alias_is_a_copy(tags, name, alias, aliased);
    law_edit_leaves_the_rest(aliased, edit_name, edit_content, edited, after, alias);
}

/// Guilds do not see each other's tags: what is done to the partition of one
/// guild leaves the tags of every other guild, and so every answer that
/// fetching there may give, as they were.
pub proof fn law_guilds_are_isolated(
    before: StoreMap,
    after: StoreMap,
    changed: u64,
    other: u64,
    name: Seq<char>,
    fetched: Result<Seq<char>, TagFault>,
)
    requires
        untouched_elsewhere(before, after, decimal(changed as nat)),
        other != changed,
    ensures
        tags_of(after, other) == tags_of(before, other),
        get_outcome(tags_of(after, other), name, fetched) == get_outcome(
            tags_of(before, other),
            name,
            fetched,
        ),
{
    if decimal(other as nat) == decimal(changed as nat) {
        lemma_decimal_injective(other as nat, changed as nat);
    }
}

/// A setting that was never set is absent.
pub proof fn law_unset_is_absent(guild_id: u64, key: Seq<char>)
    ensures
        channel_in(Map::empty(), guild_id, key) == None::<u64>,
{
}

/// A setting holds what was set last: after a channel was set for a guild
/// under a key, and then another, the second is what is fetched.
pub proof fn law_last_set_wins(
    store: StoreMap,
    guild_id: u64,
    key: Seq<char>,
    first: u64,
    second: u64,
)
    ensures
        channel_in(
            store.insert((decimal(guild_id as nat), key), be_bytes(first)),
            guild_id,
            key,
        ) == Some(first),
        channel_in(
            store.insert((decimal(guild_id as nat), key), be_bytes(first)).insert(
                (decimal(guild_id as nat), key),
                be_bytes(second),
            ),
            guild_id,
            key,
        ) == Some(second),
{
    lemma_be_round_trip(first);
    lemma_be_round_trip(second);
}

/// Setting a channel for one guild under one key changes no other setting:
/// not another key's, and not another guild's.
pub proof fn law_set_changes_one_setting(
    store: StoreMap,
    guild_id: u64,
    key: Seq<char>,
    channel_id: u64,
    other_guild: u64,
    other_key: Seq<char>,
)
    requires
        other_guild != guild_id || other_key != key,
    ensures
        channel_in(
            store.insert((decimal(guild_id as nat), key), be_bytes(channel_id)),
            other_guild,
            other_key,
        ) == channel_in(store, other_guild, other_key),
{
    if decimal(other_guild as nat) == decimal(guild_id as nat) {
        lemma_decimal_injective(other_guild as nat, guild_id as nat);
    }
}

} // verus!
