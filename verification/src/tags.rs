//! The tag store: named texts per guild, created under their literal name and
//! fetched, edited and deleted under a name that tolerates typos.

use crate::error::{text_outcome, unit_outcome, TagError};
use crate::fuzzy::{lemma_resolved_is_known, resolve, resolves_to};
use crate::model::{
    alias_outcome, alias_step, create_result, create_state, delete_outcome, delete_step,
    edit_outcome, edit_step, get_outcome, lookup, tags_of, TagMap,
};
use crate::store::{
    lemma_insert_entries, lemma_remove_entries, untouched_elsewhere, Store, StoreMap,
};
use crate::text::{
    decimal, decode_text, encode_text, listed_once, name_set, tenant_key,
};
use vstd::prelude::*;
use vstd::utf8::{decode_utf8, encode_utf8, valid_utf8};

verus! {

/// The tags of every guild. Each guild's tags lie in the partition that its
/// id names in decimal; a tag's name is its key and the UTF-8 bytes of its
/// content are its value.
pub struct TagDb {
    store: Store,
}

impl View for TagDb {
    type V = StoreMap;

    closed spec fn view(&self) -> StoreMap {
        self.store@
    }
}

impl TagDb {
    /// The tags of one guild.
    pub open spec fn tags(&self, guild_id: u64) -> TagMap {
        tags_of(self@, guild_id)
    }

    /// A store without tags.
    pub fn new() -> (db: TagDb)
        ensures
            db@ == Map::<(Seq<char>, Seq<char>), Seq<u8>>::empty(),
    {
        TagDb { store: Store::new() }
    }

    /// Takes in one record of a guild as it is persisted: the bytes of a name
    /// and the bytes of its content. A name that is no text is refused with
    /// `Utf8Error`; the content is taken as it is and read when the tag is
    /// fetched.
    pub fn load_record(&mut self, guild_id: u64, key: &[u8], value: &[u8]) -> (r: Result<
        (),
        TagError,
    >)
        ensures
            valid_utf8(key@) ==> r is Ok && final(self)@ == old(self)@.insert(
                (decimal(guild_id as nat), decode_utf8(key@)),
                value@,
            ),
            !valid_utf8(key@) ==> (r matches Err(e) && e@ is Utf8Error) && final(self)@ == old(
                self,
            )@,
    {
        match decode_text(key) {
            Ok(name) => {
                let partition = tenant_key(guild_id);
                self.store.insert(
                    partition.as_str(),
                    name.as_str(),
                    vstd::slice::slice_to_vec(value),
                );
                Ok(())
            },
            Err(e) => Err(e),
        }
    }

    /// Creates a tag under the literal name: `AlreadyExists` where that exact
    /// name is taken, else the tag is stored. No resolution takes place.
    pub fn create_tag(&mut self, name: &str, content: &str, guild_id: u64) -> (r: Result<
        (),
        TagError,
    >)
        ensures
            unit_outcome(r) == create_result(old(self).tags(guild_id), name@),
            final(self).tags(guild_id) == create_state(old(self).tags(guild_id), name@, content@),
            untouched_elsewhere(old(self)@, final(self)@, decimal(guild_id as nat)),
    {
        let partition = tenant_key(guild_id);
        if self.store.contains_key(partition.as_str(), name) {
            return Err(TagError::AlreadyExists(name.to_owned()));
        }
        proof {
            lemma_insert_entries(self@, partition@, name@, encode_utf8(content@));
        }
        self.store.insert(partition.as_str(), name, encode_text(content));
        Ok(())
    }

    /// Deletes the tag that `name` resolves to and answers its name;
    /// `DoesntExist` with the name asked for where there is no such tag.
    pub fn delete_tag(&mut self, name: &str, guild_id: u64) -> (r: Result<String, TagError>)
        ensures
            delete_outcome(
                old(self).tags(guild_id),
                name@,
                text_outcome(r),
                final(self).tags(guild_id),
            ),
            untouched_elsewhere(old(self)@, final(self)@, decimal(guild_id as nat)),
    {
        let partition = tenant_key(guild_id);
        let fixed_name = match self.fix_typos(name, guild_id) {
            Ok(fixed_name) => fixed_name,
            Err(e) => {
                return Err(e);
            },
        };
        proof {
            lemma_remove_entries(self@, partition@, fixed_name@);
        }
        let r = if self.store.remove(partition.as_str(), fixed_name.as_str()) {
            Ok(fixed_name)
        } else {
            assert(self@ =~= old(self)@);
            Err(TagError::DoesntExist(name.to_owned()))
        };
        assert(delete_step(
            old(self).tags(guild_id),
            name@,
            fixed_name@,
            text_outcome(r),
            self.tags(guild_id),
        ));
        r
    }

    /// Replaces the content of the tag that `name` resolves to and answers its
    /// name; `DoesntExist` with the name asked for where there is no such tag.
    pub fn edit_tag(&mut self, name: &str, content: &str, guild_id: u64) -> (r: Result<
        String,
        TagError,
    >)
        ensures
            edit_outcome(
                old(self).tags(guild_id),
                name@,
                content@,
                text_outcome(r),
                final(self).tags(guild_id),
            ),
            untouched_elsewhere(old(self)@, final(self)@, decimal(guild_id as nat)),
    {
        let partition = tenant_key(guild_id);
        let fixed_name = match self.fix_typos(name, guild_id) {
            Ok(fixed_name) => fixed_name,
            Err(e) => {
                return Err(e);
            },
        };
        let r = if self.store.contains_key(partition.as_str(), fixed_name.as_str()) {
            proof {
                lemma_insert_entries(self@, partition@, fixed_name@, encode_utf8(content@));
            }
            self.store.insert(partition.as_str(), fixed_name.as_str(), encode_text(content));
            Ok(fixed_name)
        } else {
            Err(TagError::DoesntExist(name.to_owned()))
        };
        assert(edit_step(
            old(self).tags(guild_id),
            name@,
            fixed_name@,
            content@,
            text_outcome(r),
            self.tags(guild_id),
        ));
        r
    }

    /// Fetches the tag of exactly this name: its text, `Utf8Error` where the
    /// stored bytes are no text, `DoesntExist` where nothing is stored.
    pub fn get_tag_exact(&self, name: &str, guild_id: u64) -> (r: Result<String, TagError>)
        ensures
            lookup(self.tags(guild_id), name@, name@, text_outcome(r)),
    {
        let partition = tenant_key(guild_id);
        match self.store.get(partition.as_str(), name) {
            Some(value) => decode_text(value.as_slice()),
            None => Err(TagError::DoesntExist(name.to_owned())),
        }
    }

    /// Fetches the tag that `name` resolves to; `DoesntExist` names the name
    /// that was asked for.
    pub fn get_tag(&self, name: &str, guild_id: u64) -> (r: Result<String, TagError>)
        ensures
            get_outcome(self.tags(guild_id), name@, text_outcome(r)),
    {
        let fixed_name = match self.fix_typos(name, guild_id) {
            Ok(fixed_name) => fixed_name,
            Err(e) => {
                return Err(e);
            },
        };
        let r = self.get_tag_exact(fixed_name.as_str(), guild_id);
        proof {
            lemma_resolved_is_known(name@, self.tags(guild_id).dom(), fixed_name@);
            assert(lookup(self.tags(guild_id), name@, fixed_name@, text_outcome(r)));
        }
        r
    }

    /// The names of all tags of a guild, each once, in no promised order.
    pub fn get_all_tags(&self, guild_id: u64) -> (r: Result<Vec<String>, TagError>)
        ensures
            r matches Ok(names) && name_set(names@) == self.tags(guild_id).dom() && listed_once(
                names@,
            ),
    {
        let partition = tenant_key(guild_id);
        Ok(self.store.keys(partition.as_str()))
    }

    /// Resolves `name` against the names of a guild's tags: the name itself if
    /// there are none or none is similar enough, else a most similar one.
    pub fn fix_typos(&self, name: &str, guild_id: u64) -> (r: Result<String, TagError>)
        ensures
            r matches Ok(fixed) && resolves_to(name@, self.tags(guild_id).dom(), fixed@),
    {
        let all_tags = match self.get_all_tags(guild_id) {
            Ok(all_tags) => all_tags,
            Err(e) => {
                return Err(e);
            },
        };
        Ok(resolve(name, &all_tags))
    }

    /// Creates `alias` as a tag of its own that holds a copy of the content of
    /// the tag that `name` resolves to. It fails as fetching `name` or creating
    /// `alias` fails.
    pub fn alias_tag(&mut self, name: &str, alias: &str, guild_id: u64) -> (r: Result<
        (),
        TagError,
    >)
        ensures
            alias_outcome(
                old(self).tags(guild_id),
                name@,
                alias@,
                unit_outcome(r),
                final(self).tags(guild_id),
            ),
            untouched_elsewhere(old(self)@, final(self)@, decimal(guild_id as nat)),
    {
        let fetched = self.get_tag(name, guild_id);
        let r = match fetched {
            Ok(content) => self.create_tag(alias, content.as_str(), guild_id),
            Err(e) => Err(e),
        };
        assert(alias_step(
            old(self).tags(guild_id),
            alias@,
            text_outcome(fetched),
            unit_outcome(r),
            self.tags(guild_id),
        ));
        r
    }
}

} // verus!
