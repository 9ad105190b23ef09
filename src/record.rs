//! The persisted session record and the store's errors.

use vstd::prelude::*;

verus! {

/// A session record as the store persists it.
///
/// `expiry_date` counts nanoseconds since the Unix epoch, in UTC.
pub struct Record {
    pub id: i128,
    pub data: Vec<u8>,
    pub expiry_date: i128,
}

/// The mathematical value of a `Record`.
pub ghost struct RecordView {
    pub id: i128,
    pub data: Seq<u8>,
    pub expiry_date: i128,
}

impl View for Record {
    type V = RecordView;

    open spec fn view(&self) -> RecordView {
        RecordView { id: self.id, data: self.data@, expiry_date: self.expiry_date }
    }
}

/// What can go wrong before or after a statement reaches the database.
pub enum StoreError {
    /// A schema or table name holds a character outside the safe set.
    InvalidIdentifier,
    /// The record could not be serialised; no statement was issued.
    Encode(rmp_serde::encode::Error),
    /// A stored payload could not be deserialised.
    Decode(rmp_serde::decode::Error),
}

} // verus!
