//! Fresh API keys for groups.
use super::group_laws;
use super::groups;
use crate::host::Docs;
use crate::text;
use uuid::Uuid;
use vstd::prelude::*;
use vstd::string::*;
use vstd::utf8;

verus! {

/// A small hexadecimal digit.
pub open spec fn is_hex_digit(c: char) -> bool {
    '0' <= c <= '9' || 'a' <= c <= 'f'
}

/// The digits of a random identifier: of the thirty-two, the thirteenth tells the version and
/// the seventeenth the variant.
pub open spec fn is_random_id(s: Seq<char>) -> bool {
    &&& s.len() == 32
    &&& forall|i: int| 0 <= i < s.len() ==> is_hex_digit(#[trigger] s[i])
    &&& s[12] == '4'
    &&& s[16] == '8' || s[16] == '9' || s[16] == 'a' || s[16] == 'b'
}

/// Calls `Uuid::new_v4` and writes the identifier with `Uuid::simple`: thirty-two small
/// hexadecimal digits without hyphens, with the version and the variant of a random
/// identifier. The other digits are random, and nothing is said of them. On a system that
/// gives no random bytes the call panics.
#[verifier::external_body]
fn random_id() -> (id: String)
    ensures
        is_random_id(id@),
{
    Uuid::new_v4().simple().to_string()
}

/// A fresh key: the digits of two random identifiers.
pub open spec fn is_fresh_key(key: Seq<char>) -> bool {
    &&& key.len() == 64
    &&& is_random_id(key.take(32))
    &&& is_random_id(key.skip(32))
}

/// The key that two drawn identifiers make: the digits of the first, then those of the second.
pub fn key_of(first: String, second: String) -> (key: String)
    ensures
        key@ == first@ + second@,
{
    first.concat(second.as_str())
}

/// Two random identifiers, one after the other, make a fresh key, and the key holds all the
/// digits of both.
pub proof fn law_two_draws_make_a_key(first: Seq<char>, second: Seq<char>)
    requires
        is_random_id(first),
        is_random_id(second),
    ensures
        is_fresh_key(first + second),
        (first + second).take(32) == first,
        (first + second).skip(32) == second,
{
    assert((first + second).take(32) =~= first);
    assert((first + second).skip(32) =~= second);
}

/// The key holds what two draws of a random identifier gave, one after the other.
pub closed spec fn is_drawn(key: Seq<char>) -> bool {
    exists|first: String, second: String|
        {
            &&& #[trigger] call_ensures(random_id, (), first)
            &&& #[trigger] call_ensures(random_id, (), second)
            &&& key == first@ + second@
        }
}

/// Makes a fresh key of 64 hexadecimal digits from two random identifiers, see [`key_of`]. The
/// caller must keep it somewhere safe: only its hash is stored.
pub fn cloud_group_new_key() -> (key: Result<String, String>)
    ensures
        key matches Ok(k) && is_drawn(k@) && is_fresh_key(k@),
{
    let first = random_id();
    let second = random_id();
    proof {
        assert(call_ensures(random_id, (), first));
        assert(call_ensures(random_id, (), second));
        law_two_draws_make_a_key(first@, second@);
    }
    Ok(key_of(first, second))
}

/// A room with a name takes every fresh key as it is, in either mode.
pub proof fn law_fresh_keys_are_taken(
    docs: Docs,
    hash: spec_fn(Seq<char>) -> Seq<char>,
    room_name: Seq<char>,
    mode: Seq<char>,
    key: Seq<char>,
    members: Option<Seq<Seq<char>>>,
)
    requires
        is_fresh_key(key),
        text::trimmed(room_name).len() > 0,
        groups::mode_named(mode) is Some,
    ensures
        groups::new_key(Some(key)) == Some(key),
        group_laws::set_answer(docs, hash, room_name, mode, Some(key), members) is Ok,
{
    assert forall|i: int| 0 <= i < key.len() implies is_hex_digit(#[trigger] key[i]) by {
        if i < 32 {
            assert(key[i] == key.take(32)[i]);
        } else {
            assert(key[i] == key.skip(32)[i - 32]);
        }
    }
    text::lemma_trim_keeps(key);
    assert(utf8::is_ascii_chars(key));
    utf8::is_ascii_chars_encode_utf8(key);
    assert(utf8::encode_utf8(key).len() == 64);
}

} // verus!
