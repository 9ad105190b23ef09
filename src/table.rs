//! What the statements do to the database, and the laws of the store that follow.

use vstd::prelude::*;
use crate::codec::{id_text, msgpack_encoding};
use crate::record::RecordView;
use crate::statement::StatementView;
use crate::store::{decoded_record, delete_view, load_view, save_view};

verus! {

/// A stored row: the encoded record and its expiry.
pub ghost struct Row {
    pub payload: Seq<u8>,
    pub expiry_date: i128,
}

/// The session table, keyed by the text of the session id.
pub type Table = Map<Seq<char>, Row>;

/// The schemas and tables that exist.
pub ghost struct Catalog {
    pub schemas: Set<Seq<char>>,
    pub tables: Set<(Seq<char>, Seq<char>)>,
}

/// The table after `s` has run, with `now` the database server's clock.
pub open spec fn apply(t: Table, s: StatementView, now: i128) -> Table {
    match s {
        StatementView::Upsert { id, payload, expiry_date } => t.insert(
            id,
            Row { payload, expiry_date },
        ),
        StatementView::Delete { id } => t.remove(id),
        StatementView::Purge => Map::new(
            |k: Seq<char>| t.contains_key(k) && t[k].expiry_date > now,
            |k: Seq<char>| t[k],
        ),
        _ => t,
    }
}

/// The payload a query returns on the table `t`.
pub open spec fn answer(t: Table, s: StatementView) -> Option<Seq<u8>> {
    match s {
        StatementView::Select { id, now } => if t.contains_key(id) && t[id].expiry_date > now {
            Some(t[id].payload)
        } else {
            None
        },
        _ => None,
    }
}

/// The catalog after `s` has run on `schema`.`table`; a table is only
/// created inside a schema that exists.
pub open spec fn apply_ddl(c: Catalog, s: StatementView, schema: Seq<char>, table: Seq<char>) -> Catalog {
    match s {
        StatementView::CreateSchema => Catalog { schemas: c.schemas.insert(schema), tables: c.tables },
        StatementView::CreateTable => if c.schemas.contains(schema) {
            Catalog { schemas: c.schemas, tables: c.tables.insert((schema, table)) }
        } else {
            c
        },
        _ => c,
    }
}

/// The catalog after a committed migration.
pub open spec fn migrated(c: Catalog, schema: Seq<char>, table: Seq<char>) -> Catalog {
    apply_ddl(
        apply_ddl(c, StatementView::CreateSchema, schema, table),
        StatementView::CreateTable,
        schema,
        table,
    )
}

/// Saving two records with the same id leaves one row for that id, holding
/// the second record, as if the first had never been saved.
pub proof fn lemma_save_same_id_keeps_last(t: Table, r1: RecordView, r2: RecordView, n1: i128, n2: i128)
    requires
        r1.id == r2.id,
    ensures
        apply(apply(t, save_view(r1), n1), save_view(r2), n2) == apply(t, save_view(r2), n2),
        apply(apply(t, save_view(r1), n1), save_view(r2), n2).dom() == t.dom().insert(id_text(r2.id)),
        apply(apply(t, save_view(r1), n1), save_view(r2), n2)[id_text(r2.id)] == (Row {
            payload: msgpack_encoding(r2.id, r2.data, r2.expiry_date),
            expiry_date: r2.expiry_date,
        }),
{
    let k = id_text(r2.id);
    let a = apply(apply(t, save_view(r1), n1), save_view(r2), n2);
    let b = apply(t, save_view(r2), n2);
    assert(a =~= b);
    assert(a.dom() =~= t.dom().insert(k));
}

/// A saved record is found again, with the payload it was saved with, by a
/// load made before it expires.
pub proof fn lemma_load_after_save(t: Table, r: RecordView, n_save: i128, now: i128)
    requires
        now < r.expiry_date,
    ensures
        answer(apply(t, save_view(r), n_save), load_view(r.id, now)) == Some(
            msgpack_encoding(r.id, r.data, r.expiry_date),
        ),
{
}

/// A load made before a saved record expires returns the record itself, when
/// the saved payload decodes back to it (which a successful save establishes).
pub proof fn lemma_load_after_save_decodes(t: Table, r: RecordView, n_save: i128, now: i128)
    requires
        now < r.expiry_date,
        decoded_record(msgpack_encoding(r.id, r.data, r.expiry_date)) == Some(r),
    ensures
        answer(apply(t, save_view(r), n_save), load_view(r.id, now)) matches Some(p)
            && decoded_record(p) == Some(r),
{
}

/// A record saved with an expiry at or before the time of the load is not found.
pub proof fn lemma_expired_save_hidden(t: Table, r: RecordView, n_save: i128, now: i128)
    requires
        r.expiry_date <= now,
    ensures
        answer(apply(t, save_view(r), n_save), load_view(r.id, now)) is None,
{
}

/// A load finds nothing both for an id that has no row and for one whose
/// row has expired: the two cannot be told apart.
pub proof fn lemma_missing_and_expired_alike(t: Table, id: i128, now: i128)
    ensures
        !t.contains_key(id_text(id)) ==> answer(t, load_view(id, now)) is None,
        t.contains_key(id_text(id)) && t[id_text(id)].expiry_date <= now ==> answer(
            t,
            load_view(id, now),
        ) is None,
{
}

/// Deleting an id twice does what deleting it once does, and deleting an id
/// that has no row leaves the table as it was.
pub proof fn lemma_delete_idempotent(t: Table, id: i128, n1: i128, n2: i128)
    ensures
        apply(apply(t, delete_view(id), n1), delete_view(id), n2) == apply(t, delete_view(id), n1),
        !t.contains_key(id_text(id)) ==> apply(t, delete_view(id), n1) == t,
        !apply(t, delete_view(id), n1).contains_key(id_text(id)),
{
    let once = apply(t, delete_view(id), n1);
    assert(apply(once, delete_view(id), n2) =~= once);
    if !t.contains_key(id_text(id)) {
        assert(once =~= t);
    }
}

/// A purge at time `now` removes exactly the rows expired at `now`, keeps the
/// others unchanged, and so changes nothing that a load at `now` sees.
pub proof fn lemma_purge_removes_only_expired(t: Table, now: i128)
    ensures
        forall|k: Seq<char>|
            #[trigger] apply(t, StatementView::Purge, now).contains_key(k) <==> t.contains_key(k)
                && t[k].expiry_date > now,
        forall|k: Seq<char>|
            #[trigger] apply(t, StatementView::Purge, now).contains_key(k) ==> apply(
                t,
                StatementView::Purge,
                now,
            )[k] == t[k],
        forall|id: i128|
            #[trigger] answer(apply(t, StatementView::Purge, now), load_view(id, now)) == answer(
                t,
                load_view(id, now),
            ),
{
}

/// Of two saved records with distinct ids, one expired at `now` and one not,
/// a purge at `now` removes the first and keeps the second: a load at `now`
/// finds nothing for the first and the second's payload for the second.
/// Distinct ids have distinct texts, as every statement built for them shows.
pub proof fn lemma_purge_two_records(t: Table, a: RecordView, b: RecordView, n1: i128, n2: i128, now: i128)
    requires
        forall|j: i128| #[trigger] id_text(j) == id_text(a.id) ==> j == a.id,
        a.id != b.id,
        a.expiry_date <= now,
        now < b.expiry_date,
    ensures
        ({
            let purged = apply(
                apply(apply(t, save_view(a), n1), save_view(b), n2),
                StatementView::Purge,
                now,
            );
            &&& !purged.contains_key(id_text(a.id))
            &&& answer(purged, load_view(a.id, now)) is None
            &&& answer(purged, load_view(b.id, now)) == Some(
                msgpack_encoding(b.id, b.data, b.expiry_date),
            )
        }),
{
    assert(id_text(b.id) != id_text(a.id));
}

/// Migrating a second time changes nothing, and after a migration the schema
/// and the table both exist.
pub proof fn lemma_migrate_idempotent(c: Catalog, schema: Seq<char>, table: Seq<char>)
    ensures
        migrated(migrated(c, schema, table), schema, table) == migrated(c, schema, table),
        migrated(c, schema, table).schemas.contains(schema),
        migrated(c, schema, table).tables.contains((schema, table)),
{
    let m = migrated(c, schema, table);
    let mm = migrated(m, schema, table);
    assert(mm.schemas =~= m.schemas);
    assert(mm.tables =~= m.tables);
}

} // verus!
