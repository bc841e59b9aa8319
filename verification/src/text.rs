//! Text as it is stored and keyed: UTF-8 bytes for names and contents, and the
//! decimal rendering of a guild's id that names its partition of the store.

use crate::error::TagError;
use vstd::prelude::*;
use vstd::utf8::{decode_utf8, encode_utf8, valid_utf8};

verus! {

/// Calls `String::push`.
///
/// Trusted: the character is appended and the rest of the text stays.
#[verifier::external_body]
pub(crate) fn push_char(text: &mut String, c: char)
    ensures
        final(text)@ == old(text)@.push(c),
{
    text.push(c)
}

/// Calls `std::str::from_utf8` and owns what it gives: the text, or the
/// rendering of the error.
///
/// Trusted: the call succeeds on exactly the valid UTF-8 byte sequences, and the
/// text it gives has the bytes it was given.
#[verifier::external_body]
pub(crate) fn from_utf8(bytes: &[u8]) -> (r: Result<String, String>)
    ensures
        r is Ok <==> valid_utf8(bytes@),
        r matches Ok(text) ==> encode_utf8(text@) == bytes@,
{
    match std::str::from_utf8(bytes) {
        Ok(text) => Ok(text.to_owned()),
        Err(e) => Err(e.to_string()),
    }
}

/// Reads stored bytes as text: the text they encode, or `Utf8Error` where they
/// encode none.
pub fn decode_text(bytes: &[u8]) -> (r: Result<String, TagError>)
    ensures
        valid_utf8(bytes@) ==> (r matches Ok(text) && text@ == decode_utf8(bytes@)),
        !valid_utf8(bytes@) ==> (r matches Err(e) && e@ is Utf8Error),
{
    match from_utf8(bytes) {
        Ok(text) => {
            proof {
                vstd::utf8::encode_utf8_decode_utf8(text@);
            }
            Ok(text)
        },
        Err(reason) => Err(TagError::Utf8Error(reason)),
    }
}

/// The bytes under which a text is stored.
pub fn encode_text(text: &str) -> (bytes: Vec<u8>)
    ensures
        bytes@ == encode_utf8(text@),
        valid_utf8(bytes@),
        decode_utf8(bytes@) == text@,
{
    proof {
        vstd::utf8::encode_utf8_valid_utf8(text@);
        vstd::utf8::encode_utf8_decode_utf8(text@);
    }
    vstd::slice::slice_to_vec(text.as_bytes())
}

/// The texts that a list of names holds.
pub open spec fn name_set(names: Seq<String>) -> Set<Seq<char>> {
    Set::new(|n: Seq<char>| exists|i: int| 0 <= i < names.len() && names[i]@ == n)
}

/// No text occurs twice among the names.
pub open spec fn listed_once(names: Seq<String>) -> bool {
    forall|i: int, j: int| 0 <= i < j < names.len() ==> names[i]@ != names[j]@
}

/// The character for one decimal digit.
pub open spec fn digit(d: nat) -> char
    recommends
        d < 10,
{
    if d == 0 {
        '0'
    } else if d == 1 {
        '1'
    } else if d == 2 {
        '2'
    } else if d == 3 {
        '3'
    } else if d == 4 {
        '4'
    } else if d == 5 {
        '5'
    } else if d == 6 {
        '6'
    } else if d == 7 {
        '7'
    } else if d == 8 {
        '8'
    } else {
        '9'
    }
}

/// The canonical decimal rendering of a number: no sign, no leading zero but
/// for zero itself.
pub open spec fn decimal(n: nat) -> Seq<char>
    decreases n,
{
    if n < 10 {
        seq![digit(n)]
    } else {
        decimal(n / 10).push(digit(n % 10))
    }
}

/// Gives the character of a digit.
pub fn digit_char(d: u64) -> (c: char)
    requires
        d < 10,
    ensures
        c == digit(d as nat),
{
    if d == 0 {
        '0'
    } else if d == 1 {
        '1'
    } else if d == 2 {
        '2'
    } else if d == 3 {
        '3'
    } else if d == 4 {
        '4'
    } else if d == 5 {
        '5'
    } else if d == 6 {
        '6'
    } else if d == 7 {
        '7'
    } else if d == 8 {
        '8'
    } else {
        '9'
    }
}

/// Appends the decimal rendering of a number to a text.
pub fn push_decimal(text: &mut String, n: u64)
    ensures
        final(text)@ == old(text)@ + decimal(n as nat),
    decreases n,
{
    if n < 10 {
        push_char(text, digit_char(n));
    } else {
        push_decimal(text, n / 10);
        push_char(text, digit_char(n % 10));
    }
}

/// The key of a guild's partition in the store: its id in decimal.
pub fn tenant_key(guild_id: u64) -> (key: String)
    ensures
        key@ == decimal(guild_id as nat),
{
    let mut key = String::new();
    push_decimal(&mut key, guild_id);
    key
}

/// The code of a digit's character lies as far above that of `'0'` as the digit is large.
pub proof fn lemma_digit_code(d: nat)
    requires
        d < 10,
    ensures
        digit(d) as nat == 48 + d,
{
}

/// A decimal rendering is never empty, and a number of two digits or more
/// takes two characters or more.
pub proof fn lemma_decimal_len(n: nat)
    ensures
        decimal(n).len() >= 1,
        n >= 10 ==> decimal(n).len() >= 2,
    decreases n,
{
    if n >= 10 {
        lemma_decimal_len(n / 10);
    }
}

/// Two numbers with the same decimal rendering are the same number: no two
/// guilds share a partition key.
pub proof fn lemma_decimal_injective(a: nat, b: nat)
    requires
        decimal(a) == decimal(b),
    ensures
        a == b,
    decreases a,
{
    lemma_decimal_len(a);
    lemma_decimal_len(b);
    if a < 10 {
        assert(decimal(a)[0] == digit(a));
        assert(decimal(b)[0] == digit(b));
        lemma_digit_code(a);
        lemma_digit_code(b);
    } else {
        let da = decimal(a / 10);
        let db = decimal(b / 10);
        assert(da.push(digit(a % 10)).drop_last() == da);
        assert(db.push(digit(b % 10)).drop_last() == db);
        assert(da.push(digit(a % 10)).last() == digit(a % 10));
        assert(db.push(digit(b % 10)).last() == digit(b % 10));
        lemma_decimal_injective(a / 10, b / 10);
        lemma_digit_code(a % 10);
        lemma_digit_code(b % 10);
    }
}

} // verus!
