//! Per-guild settings: a channel id under each setting key, stored as eight
//! bytes with the most significant first.

use crate::error::TagError;
use crate::store::{entries_of, Store, StoreMap};
use crate::text::{decimal, decode_text, tenant_key};
use vstd::utf8::{decode_utf8, valid_utf8};
use vstd::prelude::*;

verus! {

/// The key under which the channel for logs of sent messages is set.
pub const MESSAGE_SENT_CHANNEL_ID: &'static str = "MESSAGE_SENT_CHANNEL_ID";

/// The key under which the channel for logs of bans is set.
pub const BAN_CHANNEL_ID: &'static str = "BAN_CHANNEL_ID";

/// The eight bytes of a channel id, most significant first.
pub open spec fn be_bytes(id: u64) -> Seq<u8> {
    seq![
        (id / 0x100_0000_0000_0000) as u8,
        (id / 0x1_0000_0000_0000 % 0x100) as u8,
        (id / 0x100_0000_0000 % 0x100) as u8,
        (id / 0x1_0000_0000 % 0x100) as u8,
        (id / 0x100_0000 % 0x100) as u8,
        (id / 0x1_0000 % 0x100) as u8,
        (id / 0x100 % 0x100) as u8,
        (id % 0x100) as u8,
    ]
}

/// The number that eight bytes stand for, most significant first.
pub open spec fn be_value(bytes: Seq<u8>) -> int
    recommends
        bytes.len() == 8,
{
    bytes[0] * 0x100_0000_0000_0000 + bytes[1] * 0x1_0000_0000_0000 + bytes[2] * 0x100_0000_0000
        + bytes[3] * 0x1_0000_0000 + bytes[4] * 0x100_0000 + bytes[5] * 0x1_0000 + bytes[6] * 0x100
        + bytes[7]
}

/// The channel id that stored bytes stand for: none unless they are eight.
pub open spec fn channel_of(bytes: Seq<u8>) -> Option<u64> {
    if bytes.len() == 8 {
        Some(be_value(bytes) as u64)
    } else {
        None
    }
}

/// Eight bytes stand for a number that fits a channel id.
pub proof fn lemma_be_value_fits(bytes: Seq<u8>)
    requires
        bytes.len() == 8,
    ensures
        0 <= be_value(bytes) <= u64::MAX,
{
}

/// Dividing by a power of 256 is dividing by 256 as often.
proof fn lemma_divide_in_steps(id: u64)
    ensures
        id / 0x1_0000 == id / 0x100 / 0x100,
        id / 0x100_0000 == id / 0x1_0000 / 0x100,
        id / 0x1_0000_0000 == id / 0x100_0000 / 0x100,
        id / 0x100_0000_0000 == id / 0x1_0000_0000 / 0x100,
        id / 0x1_0000_0000_0000 == id / 0x100_0000_0000 / 0x100,
        id / 0x100_0000_0000_0000 == id / 0x1_0000_0000_0000 / 0x100,
        id / 0x100_0000_0000_0000 < 0x100,
{
    assert(id / 0x1_0000 == id / 0x100 / 0x100) by (bit_vector);
    assert(id / 0x100_0000 == id / 0x1_0000 / 0x100) by (bit_vector);
    assert(id / 0x1_0000_0000 == id / 0x100_0000 / 0x100) by (bit_vector);
    assert(id / 0x100_0000_0000 == id / 0x1_0000_0000 / 0x100) by (bit_vector);
    assert(id / 0x1_0000_0000_0000 == id / 0x100_0000_0000 / 0x100) by (bit_vector);
    assert(id / 0x100_0000_0000_0000 == id / 0x1_0000_0000_0000 / 0x100) by (bit_vector);
}

/// A channel id is read back from its bytes.
pub proof fn lemma_be_round_trip(id: u64)
    ensures
        be_bytes(id).len() == 8,
        be_value(be_bytes(id)) == id,
        channel_of(be_bytes(id)) == Some(id),
{
    lemma_divide_in_steps(id);
    let q1 = id / 0x100;
    let q2 = id / 0x1_0000;
    let q3 = id / 0x100_0000;
    let q4 = id / 0x1_0000_0000;
    let q5 = id / 0x100_0000_0000;
    let q6 = id / 0x1_0000_0000_0000;
    let q7 = id / 0x100_0000_0000_0000;
    assert(id == q1 * 0x100 + id % 0x100);
    assert(q1 == q2 * 0x100 + q1 % 0x100);
    assert(q2 == q3 * 0x100 + q2 % 0x100);
    assert(q3 == q4 * 0x100 + q3 % 0x100);
    assert(q4 == q5 * 0x100 + q4 % 0x100);
    assert(q5 == q6 * 0x100 + q5 % 0x100);
    assert(q6 == q7 * 0x100 + q6 % 0x100);
}

/// Eight bytes are written back from the channel id they stand for.
pub proof fn lemma_be_bytes_of_value(bytes: Seq<u8>)
    requires
        bytes.len() == 8,
    ensures
        be_bytes(be_value(bytes) as u64) == bytes,
{
    let id = be_value(bytes) as u64;
    lemma_divide_in_steps(id);
    let h0 = bytes[0] as int;
    let h1 = h0 * 0x100 + bytes[1];
    let h2 = h1 * 0x100 + bytes[2];
    let h3 = h2 * 0x100 + bytes[3];
    let h4 = h3 * 0x100 + bytes[4];
    let h5 = h4 * 0x100 + bytes[5];
    let h6 = h5 * 0x100 + bytes[6];
    let h7 = h6 * 0x100 + bytes[7];
    assert(id == h7);
    assert(id / 0x100 == h6 && id % 0x100 == bytes[7]);
    assert(h6 / 0x100 == h5 && h6 % 0x100 == bytes[6]);
    assert(h5 / 0x100 == h4 && h5 % 0x100 == bytes[5]);
    assert(h4 / 0x100 == h3 && h4 % 0x100 == bytes[4]);
    assert(h3 / 0x100 == h2 && h3 % 0x100 == bytes[3]);
    assert(h2 / 0x100 == h1 && h2 % 0x100 == bytes[2]);
    assert(h1 / 0x100 == h0 && h1 % 0x100 == bytes[1]);
    assert(be_bytes(id) =~= bytes);
}

/// The bytes under which a channel id is stored.
pub fn encode_channel_id(channel_id: u64) -> (bytes: Vec<u8>)
    ensures
        bytes@ == be_bytes(channel_id),
{
    let mut bytes: Vec<u8> = Vec::new();
    bytes.push((channel_id / 0x100_0000_0000_0000) as u8);
    bytes.push((channel_id / 0x1_0000_0000_0000 % 0x100) as u8);
    bytes.push((channel_id / 0x100_0000_0000 % 0x100) as u8);
    bytes.push((channel_id / 0x1_0000_0000 % 0x100) as u8);
    bytes.push((channel_id / 0x100_0000 % 0x100) as u8);
    bytes.push((channel_id / 0x1_0000 % 0x100) as u8);
    bytes.push((channel_id / 0x100 % 0x100) as u8);
    bytes.push((channel_id % 0x100) as u8);
    assert(bytes@ =~= be_bytes(channel_id));
    bytes
}

/// Reads stored bytes as a channel id: none unless they are eight.
pub fn decode_channel_id(bytes: &[u8]) -> (channel_id: Option<u64>)
    ensures
        channel_id == channel_of(bytes@),
{
    if bytes.len() != 8 {
        return None;
    }
    let mut value: u64 = 0;
    let mut i: usize = 0;
    while i < 8
        invariant
            bytes@.len() == 8,
            i <= 8,
            i == 0 ==> value == 0,
            i == 1 ==> value == bytes@[0],
            i == 2 ==> value == bytes@[0] * 0x100 + bytes@[1],
            i == 3 ==> value == bytes@[0] * 0x1_0000 + bytes@[1] * 0x100 + bytes@[2],
            i == 4 ==> value == bytes@[0] * 0x100_0000 + bytes@[1] * 0x1_0000 + bytes@[2] * 0x100
                + bytes@[3],
            i == 5 ==> value == bytes@[0] * 0x1_0000_0000 + bytes@[1] * 0x100_0000 + bytes@[2]
                * 0x1_0000 + bytes@[3] * 0x100 + bytes@[4],
            i == 6 ==> value == bytes@[0] * 0x100_0000_0000 + bytes@[1] * 0x1_0000_0000 + bytes@[2]
                * 0x100_0000 + bytes@[3] * 0x1_0000 + bytes@[4] * 0x100 + bytes@[5],
            i == 7 ==> value == bytes@[0] * 0x1_0000_0000_0000 + bytes@[1] * 0x100_0000_0000
                + bytes@[2] * 0x1_0000_0000 + bytes@[3] * 0x100_0000 + bytes@[4] * 0x1_0000
                + bytes@[5] * 0x100 + bytes@[6],
            i == 8 ==> value == be_value(bytes@),
        decreases 8 - i,
    {
        value = value * 0x100 + bytes[i] as u64;
        i += 1;
    }
    Some(value)
}

/// The channel that is set for a guild under a key: none where nothing is
/// stored, or where what is stored is not eight bytes.
pub open spec fn channel_in(store: StoreMap, guild_id: u64, key: Seq<char>) -> Option<u64> {
    let entries = entries_of(store, decimal(guild_id as nat));
    if entries.contains_key(key) {
        channel_of(entries[key])
    } else {
        None
    }
}

/// The settings of every guild. Each guild's settings lie in the partition
/// that its id names in decimal, the eight bytes of a channel id under each
/// setting key.
pub struct SettingsDb {
    store: Store,
}

impl View for SettingsDb {
    type V = StoreMap;

    closed spec fn view(&self) -> StoreMap {
        self.store@
    }
}

impl SettingsDb {
    /// Settings in which nothing is set.
    pub fn new() -> (db: SettingsDb)
        ensures
            db@ == Map::<(Seq<char>, Seq<char>), Seq<u8>>::empty(),
    {
        SettingsDb { store: Store::new() }
    }

    /// Takes in one record as it is persisted: the partition it lies in, the
    /// bytes of a setting key and the bytes stored under it. A key that is no
    /// text is refused with `Utf8Error`; the value is taken as it is and read
    /// when the setting is fetched.
    pub fn load_record(&mut self, guild_id: &str, key: &[u8], value: &[u8]) -> (r: Result<
        (),
        TagError,
    >)
        ensures
            valid_utf8(key@) ==> r is Ok && final(self)@ == old(self)@.insert(
                (guild_id@, decode_utf8(key@)),
                value@,
            ),
            !valid_utf8(key@) ==> (r matches Err(e) && e@ is Utf8Error) && final(self)@ == old(
                self,
            )@,
    {
        match decode_text(key) {
            Ok(name) => {
                self.store.insert(guild_id, name.as_str(), vstd::slice::slice_to_vec(value));
                Ok(())
            },
            Err(e) => Err(e),
        }
    }

    /// Sets the channel under a key, in place of what was set there, in the
    /// partition that `guild_id` names. Neither the key nor the channel is
    /// checked.
    pub fn set_channel_id(&mut self, key: &str, channel_id: u64, guild_id: String)
        ensures
            final(self)@ == old(self)@.insert((guild_id@, key@), be_bytes(channel_id)),
    {
        self.store.insert(guild_id.as_str(), key, encode_channel_id(channel_id));
    }

    /// The channel set for a guild under a key, if one is.
    pub fn get_channel_id(&self, guild_id: u64, key: &str) -> (channel_id: Option<u64>)
        ensures
            channel_id == channel_in(self@, guild_id, key@),
    {
        let partition = tenant_key(guild_id);
        match self.store.get(partition.as_str(), key) {
            Some(value) => decode_channel_id(value.as_slice()),
            None => None,
        }
    }
}

/// The answer to a request that sets a log channel.
pub struct Response {
    pub success: bool,
    pub reason: Option<String>,
}

/// Answers a request that sets a log channel: status 200 and success where
/// the setting was stored, status 400 and the reason where it was not.
pub fn respond(outcome: Result<(), String>) -> (answer: (u16, Response))
    ensures
        match outcome {
            Ok(()) => answer.0 == 200 && answer.1.success && answer.1.reason is None,
            Err(why) => answer.0 == 400 && !answer.1.success && answer.1.reason == Some(why),
        },
{
    match outcome {
        Ok(()) => (200, Response { success: true, reason: None }),
        Err(why) => (400, Response { success: false, reason: Some(why) }),
    }
}

} // verus!
