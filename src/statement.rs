//! The statements the store sends, with the SQL text each is rendered to.

use vstd::prelude::*;

verus! {

/// One statement for the database, with the values bound to its placeholders.
pub enum Statement {
    /// Create the schema if it does not exist.
    CreateSchema,
    /// Create the session table if it does not exist.
    CreateTable,
    /// Insert a row, or replace `data` and `expiry_date` of the row with this id.
    Upsert { id: String, payload: Vec<u8>, expiry_date: i128 },
    /// Read the payload of the row with this id whose expiry is after `now`.
    Select { id: String, now: i128 },
    /// Remove the row with this id, if there is one.
    Delete { id: String },
    /// Remove every row whose expiry is at or before the server's current time.
    Purge,
}

/// The mathematical value of a `Statement`.
pub ghost enum StatementView {
    CreateSchema,
    CreateTable,
    Upsert { id: Seq<char>, payload: Seq<u8>, expiry_date: i128 },
    Select { id: Seq<char>, now: i128 },
    Delete { id: Seq<char> },
    Purge,
}

impl View for Statement {
    type V = StatementView;

    open spec fn view(&self) -> StatementView {
        match self {
            Statement::CreateSchema => StatementView::CreateSchema,
            Statement::CreateTable => StatementView::CreateTable,
            Statement::Upsert { id, payload, expiry_date } => StatementView::Upsert {
                id: id@,
                payload: payload@,
                expiry_date: *expiry_date,
            },
            Statement::Select { id, now } => StatementView::Select { id: id@, now: *now },
            Statement::Delete { id } => StatementView::Delete { id: id@ },
            Statement::Purge => StatementView::Purge,
        }
    }
}

/// `` `schema`.`table` ``
pub open spec fn qualified_name(schema: Seq<char>, table: Seq<char>) -> Seq<char> {
    "`"@ + schema + "`.`"@ + table + "`"@
}

/// The SQL text of a statement on the table `table` of the schema `schema`.
pub open spec fn sql_text(s: StatementView, schema: Seq<char>, table: Seq<char>) -> Seq<char> {
    let q = qualified_name(schema, table);
    match s {
        StatementView::CreateSchema => "create schema if not exists `"@ + schema + "`"@,
        StatementView::CreateTable => "create table if not exists "@ + q
            + " (id char(22) primary key not null, data blob not null, expiry_date timestamp(6) not null)"@,
        StatementView::Upsert { .. } => "insert into "@ + q
            + " (id, data, expiry_date) values (?, ?, ?) on duplicate key update data = values(data), expiry_date = values(expiry_date)"@,
        StatementView::Select { .. } => "select data from "@ + q
            + " where id = ? and expiry_date > ?"@,
        StatementView::Delete { .. } => "delete from "@ + q + " where id = ?"@,
        StatementView::Purge => "delete from "@ + q + " where expiry_date <= utc_timestamp(6)"@,
    }
}

fn render_qualified(schema: &str, table: &str) -> (r: String)
    ensures
        r@ == qualified_name(schema@, table@),
{
    let mut r = String::from_str("`");
    r.append(schema);
    r.append("`.`");
    r.append(table);
    r.append("`");
    r
}

impl Statement {
    /// The SQL text of this statement on `schema`.`table`; placeholders stand
    /// for the bound values in the order id, payload, expiry (or id, now).
    pub fn sql(&self, schema: &str, table: &str) -> (r: String)
        ensures
            r@ == sql_text(self@, schema@, table@),
    {
        match self {
            Statement::CreateSchema => {
                let mut r = String::from_str("create schema if not exists `");
                r.append(schema);
                r.append("`");
                r
            },
            Statement::CreateTable => {
                let mut r = String::from_str("create table if not exists ");
                let q = render_qualified(schema, table);
                r.append(q.as_str());
                r.append(
                    " (id char(22) primary key not null, data blob not null, expiry_date timestamp(6) not null)",
                );
                r
            },
            Statement::Upsert { .. } => {
                let mut r = String::from_str("insert into ");
                let q = render_qualified(schema, table);
                r.append(q.as_str());
                r.append(
                    " (id, data, expiry_date) values (?, ?, ?) on duplicate key update data = values(data), expiry_date = values(expiry_date)",
                );
                r
            },
            Statement::Select { .. } => {
                let mut r = String::from_str("select data from ");
                let q = render_qualified(schema, table);
                r.append(q.as_str());
                r.append(" where id = ? and expiry_date > ?");
                r
            },
            Statement::Delete { .. } => {
                let mut r = String::from_str("delete from ");
                let q = render_qualified(schema, table);
                r.append(q.as_str());
                r.append(" where id = ?");
                r
            },
            Statement::Purge => {
                let mut r = String::from_str("delete from ");
                let q = render_qualified(schema, table);
                r.append(q.as_str());
                r.append(" where expiry_date <= utc_timestamp(6)");
                r
            },
        }
    }
}

} // verus!
