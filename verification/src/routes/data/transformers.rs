//! Comparison of stored card data with store requests.

use vstd::prelude::*;

use super::types::{Card, Data, DataDuplicationCheck, StoredData};
use crate::error::ApiError;
use crate::storage::utils::{generate_uuid_v4, is_hyphenated_uuid};
use crate::text::str_eq;

verus! {

/// Generate UUID v4 as strings to be used in storage layer
pub fn generate_uuid() -> (r: String)
    ensures
        is_hyphenated_uuid(r@, '4'),
{
    generate_uuid_v4()
}

/// A card's fields as character sequences.
pub open spec fn card_view(c: Card) -> (
    Seq<char>,
    Option<Seq<char>>,
    Option<Seq<char>>,
    Option<Seq<char>>,
    Option<Seq<char>>,
    Option<Seq<char>>,
    Option<Seq<char>>,
) {
    (
        c.card_number.0@,
        c.name_on_card.deep_view(),
        c.card_exp_month.deep_view(),
        c.card_exp_year.deep_view(),
        c.card_brand.deep_view(),
        c.card_isin.deep_view(),
        c.nick_name.deep_view(),
    )
}

/// Two cards have the same view exactly when all seven fields agree: number, name,
/// expiry month, expiry year, brand, ISIN and nickname. So stored card data matches a
/// card request (and a re-stored card counts as `Duplicated` rather than
/// `MetaDataChanged`) only when every field is unchanged.
pub proof fn lemma_card_view_compares_every_field(a: Card, b: Card)
    ensures
        stored_matches(StoredData::CardData(a), Data::Card { card: b }) <==> (a.card_number.0@
            == b.card_number.0@ && a.name_on_card.deep_view() == b.name_on_card.deep_view()
            && a.card_exp_month.deep_view() == b.card_exp_month.deep_view()
            && a.card_exp_year.deep_view() == b.card_exp_year.deep_view()
            && a.card_brand.deep_view() == b.card_brand.deep_view()
            && a.card_isin.deep_view() == b.card_isin.deep_view()
            && a.nick_name.deep_view() == b.nick_name.deep_view()),
        card_view(a) == card_view(b) <==> (a.card_number.0@ == b.card_number.0@
            && a.name_on_card.deep_view() == b.name_on_card.deep_view()
            && a.card_exp_month.deep_view() == b.card_exp_month.deep_view()
            && a.card_exp_year.deep_view() == b.card_exp_year.deep_view()
            && a.card_brand.deep_view() == b.card_brand.deep_view()
            && a.card_isin.deep_view() == b.card_isin.deep_view()
            && a.nick_name.deep_view() == b.nick_name.deep_view()),
{
}

fn opt_str_eq(a: &Option<String>, b: &Option<String>) -> (r: bool)
    ensures
        r == (a.deep_view() == b.deep_view()),
{
    match (a, b) {
        (None, None) => true,
        (Some(x), Some(y)) => str_eq(x.as_str(), y.as_str()),
        _ => false,
    }
}

/// Whether two cards hold the same number and metadata.
pub fn card_eq(a: &Card, b: &Card) -> (r: bool)
    ensures
        r == (card_view(*a) == card_view(*b)),
{
    str_eq(a.card_number.0.as_str(), b.card_number.0.as_str()) && opt_str_eq(
        &a.name_on_card,
        &b.name_on_card,
    ) && opt_str_eq(&a.card_exp_month, &b.card_exp_month) && opt_str_eq(
        &a.card_exp_year,
        &b.card_exp_year,
    ) && opt_str_eq(&a.card_brand, &b.card_brand) && opt_str_eq(&a.card_isin, &b.card_isin)
        && opt_str_eq(&a.nick_name, &b.nick_name)
}

/// Stored data matches request data of the same kind with equal contents.
pub open spec fn stored_matches(stored: StoredData, request: Data) -> bool {
    match (stored, request) {
        (StoredData::EncData(s), Data::EncData { enc_card_data }) => s@ == enc_card_data@,
        (StoredData::CardData(s), Data::Card { card }) => card_view(s) == card_view(card),
        _ => false,
    }
}

/// Whether the stored data is the data of the request.
pub fn stored_data_eq(stored: &StoredData, request: &Data) -> (r: bool)
    ensures
        r == stored_matches(*stored, *request),
{
    match (stored, request) {
        (StoredData::EncData(s), Data::EncData { enc_card_data }) => str_eq(
            s.as_str(),
            enc_card_data.as_str(),
        ),
        (StoredData::CardData(s), Data::Card { card }) => card_eq(s, card),
        _ => false,
    }
}

/// The duplication status of a request whose hash matches stored data: identical data is
/// `Duplicated`, otherwise the metadata changed.
pub fn get_data_duplication_status(stored: &StoredData, request: &Data) -> (r: DataDuplicationCheck)
    ensures
        r == (if stored_matches(*stored, *request) {
            DataDuplicationCheck::Duplicated
        } else {
            DataDuplicationCheck::MetaDataChanged
        }),
{
    if stored_data_eq(stored, request) {
        DataDuplicationCheck::Duplicated
    } else {
        DataDuplicationCheck::MetaDataChanged
    }
}

/// The duplication status of a request against the (decoded) stored data, if any.
pub fn validate_card_metadata(stored_payload: Option<&StoredData>, request_data: &Data) -> (r:
    Option<DataDuplicationCheck>)
    ensures
        match stored_payload {
            None => r is None,
            Some(stored) => r == Some(
                if stored_matches(*stored, *request_data) {
                    DataDuplicationCheck::Duplicated
                } else {
                    DataDuplicationCheck::MetaDataChanged
                },
            ),
        },
{
    match stored_payload {
        None => None,
        Some(stored) => Some(get_data_duplication_status(stored, request_data)),
    }
}

/// The bytes `serde_json` writes for `text` as a JSON string, if it writes any.
pub uninterp spec fn json_string_bytes(text: Seq<char>) -> Option<Seq<u8>>;

/// Wraps `serde_json::to_vec` on a string; the result is named [`json_string_bytes`].
#[verifier::external_body]
fn json_encode_str(text: &str) -> (r: Option<Vec<u8>>)
    ensures
        r.deep_view() == json_string_bytes(text@),
{
    serde_json::to_vec(text).ok()
}

/// The text a store request is indexed by: the caller-encrypted data, or the card
/// number.
pub open spec fn hashed_text(data: Data) -> Seq<char> {
    match data {
        Data::EncData { enc_card_data } => enc_card_data@,
        Data::Card { card } => card.card_number.0@,
    }
}

/// The input of the hash that indexes a store request: the JSON encoding of the
/// caller-encrypted data or of the card number; a failed encoding is an
/// `EncodingError`.
pub fn hash_input(request: &Data) -> (r: Result<Vec<u8>, ApiError>)
    ensures
        match json_string_bytes(hashed_text(*request)) {
            Some(bytes) => r matches Ok(v) && v@ == bytes,
            None => r == Err::<Vec<u8>, ApiError>(ApiError::EncodingError),
        },
{
    let text = match request {
        Data::EncData { enc_card_data } => enc_card_data.as_str(),
        Data::Card { card } => card.card_number.0.as_str(),
    };
    match json_encode_str(text) {
        Some(bytes) => Ok(bytes),
        None => Err(ApiError::EncodingError),
    }
}

} // verus!
