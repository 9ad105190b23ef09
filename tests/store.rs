use sqlx_session_store::ident::check_identifier;
use sqlx_session_store::migration::{
    next_migration_step, start_migration, MigrationAction, MigrationState,
};
use sqlx_session_store::record::{Record, StoreError};
use sqlx_session_store::statement::Statement;
use sqlx_session_store::store::MySqlStore;
use std::collections::HashMap;

const SECOND: i128 = 1_000_000_000;
const HOUR: i128 = 3600 * SECOND;
const NOW: i128 = 1_700_000_000 * SECOND;

/// An in-memory stand-in for the session table, keyed by id text.
struct FakeTable {
    rows: HashMap<String, (Vec<u8>, i128)>,
    now: i128,
}

impl FakeTable {
    fn new(now: i128) -> Self {
        FakeTable { rows: HashMap::new(), now }
    }

    fn run(&mut self, s: &Statement) -> Option<Vec<u8>> {
        match s {
            Statement::Upsert { id, payload, expiry_date } => {
                self.rows.insert(id.clone(), (payload.clone(), *expiry_date));
                None
            }
            Statement::Select { id, now } => match self.rows.get(id) {
                Some((p, e)) if *e > *now => Some(p.clone()),
                _ => None,
            },
            Statement::Delete { id } => {
                self.rows.remove(id);
                None
            }
            Statement::Purge => {
                let now = self.now;
                self.rows.retain(|_, (_, e)| *e > now);
                None
            }
            Statement::CreateSchema | Statement::CreateTable => None,
        }
    }
}

fn save(store: &MySqlStore<()>, t: &mut FakeTable, r: &Record) {
    let s = store.save_statement(r).unwrap_or_else(|_| panic!("encode failed"));
    t.run(&s);
}

fn load(store: &MySqlStore<()>, t: &mut FakeTable, id: i128) -> Option<Record> {
    let s = store.load_statement_at(id, t.now);
    let row = t.run(&s);
    match store.finish_load(row) {
        Ok(r) => r,
        Err(_) => panic!("decode failed"),
    }
}

fn record(id: i128, data: &[u8], expiry_date: i128) -> Record {
    Record { id, data: data.to_vec(), expiry_date }
}

#[test]
fn default_names() {
    let store = MySqlStore::new(());
    assert_eq!(store.schema_name(), "tower_sessions");
    assert_eq!(store.table_name(), "session");
}

#[test]
fn statement_texts() {
    let store = MySqlStore::new(());
    assert_eq!(store.sql(&Statement::CreateSchema), "create schema if not exists `tower_sessions`");
    assert_eq!(
        store.sql(&Statement::CreateTable),
        "create table if not exists `tower_sessions`.`session` (id char(22) primary key not null, data blob not null, expiry_date timestamp(6) not null)"
    );
    assert_eq!(
        store.sql(&store.delete_statement(1)),
        "delete from `tower_sessions`.`session` where id = ?"
    );
    assert_eq!(
        store.sql(&store.load_statement_at(1, NOW)),
        "select data from `tower_sessions`.`session` where id = ? and expiry_date > ?"
    );
    assert_eq!(
        store.sql(&store.delete_expired_statement()),
        "delete from `tower_sessions`.`session` where expiry_date <= utc_timestamp(6)"
    );
    let s = store.save_statement(&record(1, b"x", NOW)).unwrap_or_else(|_| panic!());
    assert_eq!(
        store.sql(&s),
        "insert into `tower_sessions`.`session` (id, data, expiry_date) values (?, ?, ?) on duplicate key update data = values(data), expiry_date = values(expiry_date)"
    );
}

#[test]
fn custom_names_are_used() {
    let store = match MySqlStore::with_names((), "app", "web_sessions") {
        Ok(s) => s,
        Err(_) => panic!("valid names refused"),
    };
    assert_eq!(store.sql(&store.delete_statement(7)), "delete from `app`.`web_sessions` where id = ?");
}

#[test]
fn unsafe_names_are_refused() {
    for (schema, table) in [("app", "x`; drop table y"), ("", "session"), ("a b", "session"), ("app", "sess-ion")] {
        assert!(matches!(
            MySqlStore::with_names((), schema, table),
            Err(StoreError::InvalidIdentifier)
        ));
    }
}

#[test]
fn identifier_lengths() {
    assert!(check_identifier("_Az09"));
    assert!(check_identifier(&"a".repeat(64)));
    assert!(!check_identifier(&"a".repeat(65)));
    assert!(!check_identifier(""));
    assert!(!check_identifier("é"));
}

#[test]
fn id_text_is_base64_of_little_endian_bytes() {
    let store = MySqlStore::new(());
    match store.delete_statement(0) {
        Statement::Delete { id } => assert_eq!(id, "AAAAAAAAAAAAAAAAAAAAAA"),
        _ => panic!("not a delete"),
    }
    match store.load_statement_at(1, NOW) {
        Statement::Select { id, now } => {
            assert_eq!(id, "AQAAAAAAAAAAAAAAAAAAAA");
            assert_eq!(now, NOW);
        }
        _ => panic!("not a select"),
    }
}

#[test]
fn save_binds_encoded_record() {
    let store = MySqlStore::new(());
    let r = record(5, b"payload1", NOW + HOUR);
    match store.save_statement(&r) {
        Ok(Statement::Upsert { id, payload, expiry_date }) => {
            assert_eq!(id.len(), 22);
            assert_ne!(payload, b"payload1".to_vec());
            assert_eq!(expiry_date, NOW + HOUR);
        }
        _ => panic!("not an upsert"),
    }
}

#[test]
fn load_statement_uses_clock() {
    let store = MySqlStore::new(());
    match store.load_statement(3) {
        Statement::Select { now, .. } => assert!(now > NOW),
        _ => panic!("not a select"),
    }
}

#[test]
fn finish_load_without_row_is_none() {
    let store = MySqlStore::new(());
    assert!(matches!(store.finish_load(None), Ok(None)));
}

#[test]
fn finish_load_of_corrupt_payload_is_decode_error() {
    let store = MySqlStore::new(());
    assert!(matches!(store.finish_load(Some(vec![0xc1])), Err(StoreError::Decode(_))));
    assert!(matches!(store.finish_load(Some(vec![])), Err(StoreError::Decode(_))));
}

#[test]
fn save_then_load_round_trips() {
    let store = MySqlStore::new(());
    let mut t = FakeTable::new(NOW);
    let r = record(-42, b"\x00\x01session", NOW + HOUR);
    save(&store, &mut t, &r);
    let got = load(&store, &mut t, -42).unwrap_or_else(|| panic!("not found"));
    assert_eq!(got.id, -42);
    assert_eq!(got.data, b"\x00\x01session".to_vec());
    assert_eq!(got.expiry_date, NOW + HOUR);
}

#[test]
fn round_trip_of_empty_data() {
    let store = MySqlStore::new(());
    let mut t = FakeTable::new(NOW);
    save(&store, &mut t, &record(i128::MAX, b"", NOW + 1));
    let got = load(&store, &mut t, i128::MAX).unwrap_or_else(|| panic!("not found"));
    assert_eq!(got.data, Vec::<u8>::new());
    assert_eq!(got.expiry_date, NOW + 1);
}

#[test]
fn upsert_same_id_keeps_second() {
    let store = MySqlStore::new(());
    let mut t = FakeTable::new(NOW);
    save(&store, &mut t, &record(9, b"payload1", NOW + HOUR));
    let first = load(&store, &mut t, 9).unwrap_or_else(|| panic!("not found"));
    assert_eq!(first.data, b"payload1".to_vec());
    save(&store, &mut t, &record(9, b"payload2", NOW + 2 * HOUR));
    assert_eq!(t.rows.len(), 1);
    let second = load(&store, &mut t, 9).unwrap_or_else(|| panic!("not found"));
    assert_eq!(second.data, b"payload2".to_vec());
    assert_eq!(second.expiry_date, NOW + 2 * HOUR);
}

#[test]
fn expired_record_is_hidden() {
    let store = MySqlStore::new(());
    let mut t = FakeTable::new(NOW);
    save(&store, &mut t, &record(11, b"old", NOW - SECOND));
    assert!(load(&store, &mut t, 11).is_none());
    assert_eq!(t.rows.len(), 1);
}

#[test]
fn missing_and_expired_look_alike() {
    let store = MySqlStore::new(());
    let mut t = FakeTable::new(NOW);
    save(&store, &mut t, &record(12, b"old", NOW - SECOND));
    assert!(load(&store, &mut t, 12).is_none());
    assert!(load(&store, &mut t, 13).is_none());
}

#[test]
fn delete_twice_and_missing() {
    let store = MySqlStore::new(());
    let mut t = FakeTable::new(NOW);
    save(&store, &mut t, &record(14, b"x", NOW + HOUR));
    t.run(&store.delete_statement(14));
    t.run(&store.delete_statement(14));
    t.run(&store.delete_statement(15));
    assert!(load(&store, &mut t, 14).is_none());
    assert!(t.rows.is_empty());
}

#[test]
fn purge_removes_only_expired() {
    let store = MySqlStore::new(());
    let mut t = FakeTable::new(NOW);
    save(&store, &mut t, &record(1, b"a", NOW - SECOND));
    save(&store, &mut t, &record(2, b"b", NOW + HOUR));
    t.run(&store.delete_expired_statement());
    assert_eq!(t.rows.len(), 1);
    assert!(load(&store, &mut t, 1).is_none());
    let b = load(&store, &mut t, 2).unwrap_or_else(|| panic!("not found"));
    assert_eq!(b.data, b"b".to_vec());
}

fn run_migration(fail_at: Option<usize>) -> (MigrationState, Vec<&'static str>) {
    let (mut state, mut action) = start_migration();
    let mut log = Vec::new();
    let mut step = 0;
    loop {
        let name = match &action {
            MigrationAction::Begin => "begin",
            MigrationAction::Execute(Statement::CreateSchema) => "schema",
            MigrationAction::Execute(Statement::CreateTable) => "table",
            MigrationAction::Execute(_) => "other",
            MigrationAction::Commit => "commit",
            MigrationAction::Abort => "abort",
            MigrationAction::Finish => "finish",
        };
        log.push(name);
        if state == MigrationState::Committed || state == MigrationState::Failed {
            return (state, log);
        }
        let ok = fail_at != Some(step);
        step += 1;
        let next = next_migration_step(state, ok);
        state = next.0;
        action = next.1;
    }
}

#[test]
fn migration_runs_both_statements_then_commits() {
    let (state, log) = run_migration(None);
    assert_eq!(state, MigrationState::Committed);
    assert_eq!(log, vec!["begin", "schema", "table", "commit", "finish"]);
}

#[test]
fn migration_twice_succeeds_both_times() {
    for _ in 0..2 {
        assert_eq!(run_migration(None).0, MigrationState::Committed);
    }
}

#[test]
fn migration_failure_is_not_committed() {
    let (state, log) = run_migration(Some(2));
    assert_eq!(state, MigrationState::Failed);
    assert_eq!(log, vec!["begin", "schema", "table", "abort"]);
    let (state, log) = run_migration(Some(0));
    assert_eq!(state, MigrationState::Failed);
    assert_eq!(log, vec!["begin", "abort"]);
}

#[test]
fn upsert_carries_given_payload() {
    let store = MySqlStore::new(());
    match store.upsert_statement(&record(0, b"x", NOW + HOUR), Ok(vec![1, 2, 3])) {
        Ok(Statement::Upsert { id, payload, expiry_date }) => {
            assert_eq!(id, "AAAAAAAAAAAAAAAAAAAAAA");
            assert_eq!(payload, vec![1, 2, 3]);
            assert_eq!(expiry_date, NOW + HOUR);
        }
        _ => panic!("not an upsert"),
    }
}

#[test]
fn failed_encoding_is_encode_error() {
    let store = MySqlStore::new(());
    let failed = Err(rmp_serde::encode::Error::Syntax("broken".to_string()));
    match store.upsert_statement(&record(1, b"x", NOW + HOUR), failed) {
        Err(StoreError::Encode(rmp_serde::encode::Error::Syntax(m))) => assert_eq!(m, "broken"),
        _ => panic!("not an encode error"),
    }
}

#[test]
fn saved_payload_decodes_to_record() {
    let store = MySqlStore::new(());
    let r = record(77, b"payload1", NOW + HOUR);
    let payload = match store.save_statement(&r) {
        Ok(Statement::Upsert { payload, .. }) => payload,
        _ => panic!("not an upsert"),
    };
    match store.finish_load(Some(payload)) {
        Ok(Some(got)) => {
            assert_eq!(got.id, 77);
            assert_eq!(got.data, b"payload1".to_vec());
            assert_eq!(got.expiry_date, NOW + HOUR);
        }
        _ => panic!("did not decode"),
    }
}
