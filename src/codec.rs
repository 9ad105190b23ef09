//! Calls into the session-id formatting, the payload codec and the clock.

use vstd::prelude::*;

verus! {

#[verifier::external_type_specification]
#[verifier::external_body]
pub struct ExEncodeError(rmp_serde::encode::Error);

#[verifier::external_type_specification]
#[verifier::external_body]
pub struct ExDecodeError(rmp_serde::decode::Error);

/// The textual form of a session id, as `tower_sessions_core::session::Id` prints it.
pub uninterp spec fn id_text(id: i128) -> Seq<char>;

/// The MessagePack bytes of the triple `(id, data, expiry_date)`.
pub uninterp spec fn msgpack_encoding(id: i128, data: Seq<u8>, expiry_date: i128) -> Seq<u8>;

/// The triple that MessagePack bytes decode to, if any.
pub uninterp spec fn msgpack_decoding(bytes: Seq<u8>) -> Option<(i128, Seq<u8>, i128)>;

/// Relies on the `Display` impl of `tower_sessions_core::session::Id`: the
/// URL-safe, unpadded base64 of the id's 16 little-endian bytes, 22 characters.
/// Base64 of a fixed number of bytes is one to one, so no other id has this text.
#[verifier::external_body]
pub(crate) fn session_id_text(id: i128) -> (r: String)
    ensures
        r@ == id_text(id),
        r@.len() == 22,
        forall|j: i128| #[trigger] id_text(j) == r@ ==> j == id,
{
    tower_sessions_core::session::Id(id).to_string()
}

/// Relies on `rmp_serde::to_vec`: on success, the MessagePack bytes of the
/// triple, which `rmp_serde::from_slice` reads back as the same triple. It
/// fails only when the output buffer cannot be grown. A sequence is counted
/// in a `u32`, so `data` holds at most `u32::MAX` bytes.
#[verifier::external_body]
pub(crate) fn encode_payload(id: i128, data: &Vec<u8>, expiry_date: i128) -> (r: Result<
    Vec<u8>,
    rmp_serde::encode::Error,
>)
    requires
        data@.len() <= u32::MAX,
    ensures
        r matches Ok(b) ==> b@ == msgpack_encoding(id, data@, expiry_date),
        r matches Ok(b) ==> msgpack_decoding(b@) == Some((id, data@, expiry_date)),
{
    rmp_serde::to_vec(&(id, data, expiry_date))
}

/// Relies on `rmp_serde::from_slice`: whether and to what the bytes decode
/// depends on the bytes alone.
#[verifier::external_body]
pub(crate) fn decode_payload(bytes: &[u8]) -> (r: Result<
    (i128, Vec<u8>, i128),
    rmp_serde::decode::Error,
>)
    ensures
        match r {
            Ok(t) => msgpack_decoding(bytes@) == Some((t.0, t.1@, t.2)),
            Err(_) => msgpack_decoding(bytes@) is None,
        },
{
    rmp_serde::from_slice(bytes)
}

/// Relies on `time::OffsetDateTime::now_utc` and `unix_timestamp_nanos`: the
/// current time in nanoseconds since the Unix epoch. Nothing is known of its value.
#[verifier::external_body]
pub(crate) fn now_utc_nanos() -> (r: i128) {
    time::OffsetDateTime::now_utc().unix_timestamp_nanos()
}

} // verus!
