//! Models of the card API.

use vstd::prelude::*;

use crate::storage::types::CardNumber;

verus! {

#[derive(Debug, Clone, PartialEq, Eq)]
pub struct Card {
    pub card_number: CardNumber,
    pub name_on_card: Option<String>,
    pub card_exp_month: Option<String>,
    pub card_exp_year: Option<String>,
    pub card_brand: Option<String>,
    pub card_isin: Option<String>,
    pub nick_name: Option<String>,
}

/// Result of comparing a store request with the card already stored under its hash.
#[derive(Debug, Clone, Copy, PartialEq, Eq, Structural)]
pub enum DataDuplicationCheck {
    Duplicated,
    MetaDataChanged,
}

/// The data a store request carries: a card, or data the caller encrypted itself.
#[derive(Debug, Clone, PartialEq, Eq)]
pub enum Data {
    EncData { enc_card_data: String },
    Card { card: Card },
}

/// The data as stored in the locker.
#[derive(Debug, Clone, PartialEq, Eq)]
pub enum StoredData {
    EncData(String),
    CardData(Card),
}

/// A request to store card data.
#[derive(Debug, Clone, PartialEq, Eq)]
pub struct StoreCardRequest {
    pub merchant_id: String,
    pub merchant_customer_id: String,
    pub requestor_card_reference: Option<String>,
    pub data: Data,
    pub ttl: Option<i128>,
}

} // verus!

verus! {

/// The status of an answered request (the API writes it as `"Ok"`).
#[derive(Debug, Clone, Copy, PartialEq, Eq, Structural)]
pub enum Status {
    Success,
}

#[derive(Debug, Clone, PartialEq, Eq)]
pub struct StoreCardRespPayload {
    pub card_reference: String,
    pub duplication_check: Option<DataDuplicationCheck>,
}

#[derive(Debug, Clone, PartialEq, Eq)]
pub struct StoreCardResponse {
    pub status: Status,
    pub payload: Option<StoreCardRespPayload>,
}

} // verus!
