//! Identifier generation.

use vstd::prelude::*;

use super::consts;

verus! {

pub open spec fn is_ascii_alphanumeric(c: char) -> bool {
    ('0' <= c && c <= '9') || ('a' <= c && c <= 'z') || ('A' <= c && c <= 'Z')
}

/// Wraps `nanoid::format` with the default random source: `size` characters, each drawn
/// from `alphabet`.
#[verifier::external_body]
fn nanoid_format(alphabet: &[char], size: usize) -> (r: String)
    requires
        0 < alphabet@.len() <= 255,
        forall|i: int| 0 <= i < alphabet@.len() ==> (alphabet@[i] as u32) < 128,
        0 < size <= usize::MAX / 8,
    ensures
        r@.len() == size,
        forall|i: int| 0 <= i < r@.len() ==> alphabet@.contains(#[trigger] r@[i]),
{
    nanoid::format(nanoid::rngs::default, alphabet, size)
}

/// A random identifier of `id_length` ASCII letters and digits.
pub fn generate_nano_id(id_length: usize) -> (r: String)
    requires
        0 < id_length <= usize::MAX / 8,
    ensures
        r@.len() == id_length,
        forall|i: int| 0 <= i < r@.len() ==> is_ascii_alphanumeric(#[trigger] r@[i]),
{
    let alphabet = consts::ALPHABETS;
    assert forall|i: int| 0 <= i < alphabet@.len() implies is_ascii_alphanumeric(
        #[trigger] alphabet@[i],
    ) && (alphabet@[i] as u32) < 128 by {}
    let id = nanoid_format(&alphabet, id_length);
    assert forall|i: int| 0 <= i < id@.len() implies is_ascii_alphanumeric(#[trigger] id@[i]) by {
        let j = choose|j: int| 0 <= j < alphabet@.len() && alphabet@[j] == id@[i];
        assert(is_ascii_alphanumeric(alphabet@[j]));
    }
    id
}

pub open spec fn is_lower_hex_digit(c: char) -> bool {
    ('0' <= c && c <= '9') || ('a' <= c && c <= 'f')
}

/// The hyphenated lowercase text of a UUID of the given version: 36 characters, hyphens
/// at positions 8, 13, 18 and 23, lowercase hex digits elsewhere, the version digit at
/// position 14.
pub open spec fn is_hyphenated_uuid(s: Seq<char>, version: char) -> bool {
    &&& s.len() == 36
    &&& forall|i: int|
        0 <= i < 36 ==> if i == 8 || i == 13 || i == 18 || i == 23 {
            #[trigger] s[i] == '-'
        } else {
            is_lower_hex_digit(s[i])
        }
    &&& s[14] == version
}

/// Wraps `uuid::Uuid::now_v7` and its hyphenated lowercase `to_string`.
#[verifier::external_body]
fn uuid_v7_string() -> (r: String)
    ensures
        is_hyphenated_uuid(r@, '7'),
{
    uuid::Uuid::now_v7().to_string()
}

/// Wraps `uuid::Uuid::new_v4` and its hyphenated lowercase `to_string`.
#[verifier::external_body]
fn uuid_v4_string() -> (r: String)
    ensures
        is_hyphenated_uuid(r@, '4'),
{
    uuid::Uuid::new_v4().to_string()
}

/// A time-ordered (version 7) UUID, as text, to be used in the storage layer.
pub fn generate_uuid() -> (r: String)
    ensures
        is_hyphenated_uuid(r@, '7'),
{
    uuid_v7_string()
}

/// A random (version 4) UUID, as text.
pub fn generate_uuid_v4() -> (r: String)
    ensures
        is_hyphenated_uuid(r@, '4'),
{
    uuid_v4_string()
}

} // verus!
