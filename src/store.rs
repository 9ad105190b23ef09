//! The session store: what each operation sends, and what it makes of the answer.

use vstd::prelude::*;
use crate::codec::{
    decode_payload, encode_payload, id_text, msgpack_decoding, msgpack_encoding,
    now_utc_nanos, session_id_text,
};
use crate::ident::{check_identifier, is_safe_identifier};
use crate::record::{Record, RecordView, StoreError};
use crate::statement::{sql_text, Statement, StatementView};

verus! {

/// The upsert that saves `r`: keyed by the id's text, carrying the encoded record.
pub open spec fn save_view(r: RecordView) -> StatementView {
    StatementView::Upsert {
        id: id_text(r.id),
        payload: msgpack_encoding(r.id, r.data, r.expiry_date),
        expiry_date: r.expiry_date,
    }
}

/// The query that loads the record `id` as seen at time `now`.
pub open spec fn load_view(id: i128, now: i128) -> StatementView {
    StatementView::Select { id: id_text(id), now }
}

/// The statement that deletes the record `id`.
pub open spec fn delete_view(id: i128) -> StatementView {
    StatementView::Delete { id: id_text(id) }
}

/// The record that a stored payload decodes to, if it decodes.
pub open spec fn decoded_record(payload: Seq<u8>) -> Option<RecordView> {
    match msgpack_decoding(payload) {
        Some(t) => Some(RecordView { id: t.0, data: t.1, expiry_date: t.2 }),
        None => None,
    }
}

/// A MySQL session store over a connection pool `P`.
#[derive(Clone, Debug)]
pub struct MySqlStore<P> {
    pool: P,
    schema_name: String,
    table_name: String,
}

impl<P> MySqlStore<P> {
    /// The schema that holds the session table.
    pub closed spec fn schema(&self) -> Seq<char> {
        self.schema_name@
    }

    /// The session table's name.
    pub closed spec fn table(&self) -> Seq<char> {
        self.table_name@
    }

    /// The connection pool the store was made with.
    pub closed spec fn pool_spec(&self) -> P {
        self.pool
    }

    /// Both names are safe to splice into a statement.
    pub open spec fn wf(&self) -> bool {
        is_safe_identifier(self.schema()) && is_safe_identifier(self.table())
    }

    /// A store on `pool` using the schema `tower_sessions` and the table `session`.
    pub fn new(pool: P) -> (r: Self)
        ensures
            r.schema() == "tower_sessions"@,
            r.table() == "session"@,
            r.pool_spec() == pool,
            r.wf(),
    {
        let r = MySqlStore {
            pool,
            schema_name: String::from_str("tower_sessions"),
            table_name: String::from_str("session"),
        };
        proof {
            reveal_strlit("tower_sessions");
            reveal_strlit("session");
            assert(is_safe_identifier(r.schema()));
            assert(is_safe_identifier(r.table()));
        }
        r
    }

    /// A store on `pool` using the given names, which must be safe identifiers.
    pub fn with_names(pool: P, schema_name: &str, table_name: &str) -> (r: Result<Self, StoreError>)
        ensures
            is_safe_identifier(schema_name@) && is_safe_identifier(table_name@) <==> r is Ok,
            r matches Ok(s) ==> s.schema() == schema_name@ && s.table() == table_name@
                && s.pool_spec() == pool && s.wf(),
            r matches Err(e) ==> e is InvalidIdentifier,
    {
        if check_identifier(schema_name) && check_identifier(table_name) {
            Ok(
                MySqlStore {
                    pool,
                    schema_name: String::from_str(schema_name),
                    table_name: String::from_str(table_name),
                },
            )
        } else {
            Err(StoreError::InvalidIdentifier)
        }
    }

    /// The connection pool.
    pub fn pool(&self) -> (r: &P)
        ensures
            *r == self.pool_spec(),
    {
        &self.pool
    }

    /// The schema's name.
    pub fn schema_name(&self) -> (r: &str)
        ensures
            r@ == self.schema(),
    {
        self.schema_name.as_str()
    }

    /// The table's name.
    pub fn table_name(&self) -> (r: &str)
        ensures
            r@ == self.table(),
    {
        self.table_name.as_str()
    }

    /// The SQL text of `s` on this store's table.
    pub fn sql(&self, s: &Statement) -> (r: String)
        ensures
            r@ == sql_text(s@, self.schema(), self.table()),
    {
        s.sql(self.schema_name.as_str(), self.table_name.as_str())
    }

    /// The upsert that saves `record`, given the result of encoding it: the
    /// encoded bytes go out as the payload, and a failed encoding is reported
    /// as `Encode`, with nothing to send.
    pub fn upsert_statement(
        &self,
        record: &Record,
        encoded: Result<Vec<u8>, rmp_serde::encode::Error>,
    ) -> (r: Result<Statement, StoreError>)
        ensures
            encoded is Ok <==> r is Ok,
            encoded matches Ok(p) ==> r matches Ok(s) && s@ == (StatementView::Upsert {
                id: id_text(record.id),
                payload: p@,
                expiry_date: record.expiry_date,
            }),
            encoded matches Err(e) ==> r matches Err(f) && f == StoreError::Encode(e),
            forall|j: i128| #[trigger] id_text(j) == id_text(record.id) ==> j == record.id,
    {
        let id = session_id_text(record.id);
        match encoded {
            Ok(payload) => Ok(Statement::Upsert { id, payload, expiry_date: record.expiry_date }),
            Err(e) => Err(StoreError::Encode(e)),
        }
    }

    /// The upsert that saves `record`, or `Encode` if the record cannot be
    /// serialised, in which case nothing is to be sent. A saved payload
    /// decodes back to the record.
    pub fn save_statement(&self, record: &Record) -> (r: Result<Statement, StoreError>)
        requires
            record.data@.len() <= u32::MAX,
        ensures
            r matches Ok(s) ==> s@ == save_view(record@),
            r matches Ok(s) ==> decoded_record(msgpack_encoding(
                record.id,
                record.data@,
                record.expiry_date,
            )) == Some(record@),
            r matches Err(e) ==> e is Encode,
            forall|j: i128| #[trigger] id_text(j) == id_text(record.id) ==> j == record.id,
    {
        let encoded = encode_payload(record.id, &record.data, record.expiry_date);
        self.upsert_statement(record, encoded)
    }

    /// The query that loads `id` as seen at time `now`.
    pub fn load_statement_at(&self, id: i128, now: i128) -> (r: Statement)
        ensures
            r@ == load_view(id, now),
            forall|j: i128| #[trigger] id_text(j) == id_text(id) ==> j == id,
    {
        Statement::Select { id: session_id_text(id), now }
    }

    /// The query that loads `id` as seen at the current time of the clock.
    pub fn load_statement(&self, id: i128) -> (r: Statement)
        ensures
            exists|now: i128| r@ == load_view(id, now),
    {
        let now = now_utc_nanos();
        self.load_statement_at(id, now)
    }

    /// What `load` returns for the row the query gave: nothing for no row, the
    /// decoded record for a payload that decodes, and `Decode` otherwise.
    pub fn finish_load(&self, row: Option<Vec<u8>>) -> (r: Result<Option<Record>, StoreError>)
        ensures
            row is None ==> r matches Ok(None),
            row matches Some(b) ==> match decoded_record(b@) {
                Some(v) => r matches Ok(Some(rec)) && rec@ == v,
                None => r matches Err(e) && e is Decode,
            },
    {
        match row {
            None => Ok(None),
            Some(b) => match decode_payload(b.as_slice()) {
                Ok(t) => Ok(Some(Record { id: t.0, data: t.1, expiry_date: t.2 })),
                Err(e) => Err(StoreError::Decode(e)),
            },
        }
    }

    /// The statement that deletes `id`, whether or not it is stored.
    pub fn delete_statement(&self, id: i128) -> (r: Statement)
        ensures
            r@ == delete_view(id),
            forall|j: i128| #[trigger] id_text(j) == id_text(id) ==> j == id,
    {
        Statement::Delete { id: session_id_text(id) }
    }

    /// The statement that removes every expired row.
    pub fn delete_expired_statement(&self) -> (r: Statement)
        ensures
            r@ == StatementView::Purge,
    {
        Statement::Purge
    }
}

} // verus!
