//! The decision half of the store client.
//!
//! The unverified shell owns the real connection and hands every fetched
//! column over as a plain outcome: the text, a conversion failure message,
//! or nothing when the column is missing.  Everything that is decided
//! about those outcomes — which error class, which column label, when a
//! whole listing succeeds — is verified here.

use vstd::prelude::*;

use crate::error::DatabaseError;
use crate::error::DatabaseResult;
use crate::transcode::ExportRow;

verus! {

/// The database listing operations connect to when none is chosen yet.
pub const DEFAULT_DATABASE: &'static str = "postgres";

/// How many rows one cursor round trip fetches during an export.
pub const FETCH_LIMIT: i32 = 1_000;

/// The outcome of reading one column of one fetched row: absent, present
/// but not convertible to text (with the driver's message), or the text.
pub type TextCell = Option<Result<String, String>>;

/// Connection parameters of the store.  An empty password means no
/// authentication.
#[derive(Debug)]
pub struct PostgreSQL {
    pub server: String,
    pub port: u16,
    pub user: String,
    pub password: String,
}

pub open spec fn cell_ok(c: TextCell) -> bool {
    c matches Some(Ok(_))
}

/// The text a readable cell holds.
pub open spec fn cell_value(c: TextCell) -> Seq<char> {
    match c {
        Some(Ok(v)) => v@,
        _ => Seq::empty(),
    }
}

pub open spec fn cells_ok(cells: Seq<TextCell>) -> bool {
    forall|i: int| 0 <= i < cells.len() ==> #[trigger] cell_ok(cells[i])
}

/// The error an unreadable cell maps to: `ColumnNotExists` for an absent
/// column, `ConversionError` carrying the column label and the driver's
/// message for an unconvertible one.
pub open spec fn cell_error_matches(c: TextCell, e: DatabaseError, column: Seq<char>) -> bool {
    match c {
        None => e == DatabaseError::ColumnNotExists,
        Some(Err(m)) => e matches DatabaseError::ConversionError { message, column: col }
            && message == m && col@ == column,
        Some(Ok(_)) => false,
    }
}

impl PostgreSQL {
    pub fn new(server: &str, port: u16, user: &str, password: &str) -> (pg: PostgreSQL)
        ensures
            pg.server@ == server@,
            pg.port == port,
            pg.user@ == user@,
            pg.password@ == password@,
    {
        PostgreSQL {
            server: server.to_owned(),
            port,
            user: user.to_owned(),
            password: password.to_owned(),
        }
    }

    /// The database a session connects to: the requested one, or the
    /// well-known default for the listings that run before a choice.
    pub fn target_database(database: Option<&str>) -> (r: String)
        ensures
            database matches Some(d) ==> r@ == d@,
            database is None ==> r@ == DEFAULT_DATABASE@,
    {
        match database {
            Some(d) => d.to_owned(),
            None => DEFAULT_DATABASE.to_owned(),
        }
    }

    /// The database-listing results: one name per fetched row.  The
    /// unverified shell runs the fixed listing query against the default
    /// database and hands the single expected column over, row by row.
    pub fn database_names(&self, cells: Vec<TextCell>) -> (r: DatabaseResult<Vec<String>>)
        ensures
            r is Ok <==> cells_ok(cells@),
            r matches Ok(names) ==> names@.len() == cells@.len() && (forall|k: int|
                0 <= k < cells@.len() ==> #[trigger] names@[k]@ == cell_value(cells@[k])),
            r matches Err(e) ==> exists|k: int|
                0 <= k < cells@.len() && cells_ok(cells@.subrange(0, k))
                    && #[trigger] cell_error_matches(cells@[k], e, "database name"@),
    {
        collect_names(cells, "database name")
    }

    /// The stage-listing results for a selected database, read the same
    /// way as the database listing.
    pub fn stage_names(&self, cells: Vec<TextCell>) -> (r: DatabaseResult<Vec<String>>)
        ensures
            r is Ok <==> cells_ok(cells@),
            r matches Ok(names) ==> names@.len() == cells@.len() && (forall|k: int|
                0 <= k < cells@.len() ==> #[trigger] names@[k]@ == cell_value(cells@[k])),
            r matches Err(e) ==> exists|k: int|
                0 <= k < cells@.len() && cells_ok(cells@.subrange(0, k))
                    && #[trigger] cell_error_matches(cells@[k], e, "maker name"@),
    {
        collect_names(cells, "maker name")
    }

    /// The password the session authenticates with; an empty one means
    /// none at all.
    pub fn auth_password(&self) -> (r: Option<&str>)
        ensures
            r matches Some(p) ==> p@ == self.password@ && self.password@.len() > 0,
            r is None ==> self.password@.len() == 0,
    {
        if self.password.as_str().is_empty() {
            None
        } else {
            Some(self.password.as_str())
        }
    }
}

/// Maps one fetched cell to its text, or to the error its failure class
/// calls for.
pub fn column_text(cell: TextCell, column: &str) -> (r: DatabaseResult<String>)
    ensures
        cell matches Some(Ok(v)) ==> r == Ok::<String, DatabaseError>(v),
        r is Ok <==> cell_ok(cell),
        r matches Err(e) ==> cell_error_matches(cell, e, column@),
{
    match cell {
        Some(Ok(v)) => Ok(v),
        Some(Err(m)) => Err(DatabaseError::conversion_error(m, column.to_owned())),
        None => Err(DatabaseError::column_not_exists()),
    }
}

/// Collects a single-column listing (database names, stage names) in
/// result order; the first unreadable cell aborts the listing with its
/// error, labelled with the given column name.
#[verifier::loop_isolation(false)]
pub fn collect_names(cells: Vec<TextCell>, column: &str) -> (r: DatabaseResult<Vec<String>>)
    ensures
        r is Ok <==> cells_ok(cells@),
        r matches Ok(names) ==> names@.len() == cells@.len() && (forall|k: int|
            0 <= k < cells@.len() ==> #[trigger] names@[k]@ == cell_value(cells@[k])),
        r matches Err(e) ==> exists|k: int|
            0 <= k < cells@.len() && cells_ok(cells@.subrange(0, k)) && #[trigger] cell_error_matches(
                cells@[k],
                e,
                column@,
            ),
{
    let ghost all = cells@;
    let mut rest = cells;
    let mut names: Vec<String> = Vec::new();
    loop
        invariant
            names@.len() <= all.len(),
            rest@ =~= all.subrange(names@.len() as int, all.len() as int),
            cells_ok(all.subrange(0, names@.len() as int)),
            forall|k: int| 0 <= k < names@.len() ==> #[trigger] names@[k]@ == cell_value(all[k]),
        decreases rest@.len(),
    {
        if rest.len() == 0 {
            proof {
                assert(all.subrange(0, names@.len() as int) =~= all);
            }
            return Ok(names);
        }
        let ghost k = names@.len() as int;
        let cell = rest.remove(0);
        proof {
            assert(cell == all[k]);
            assert(rest@ =~= all.subrange(k + 1, all.len() as int));
        }
        match column_text(cell, column) {
            Ok(v) => {
                names.push(v);
                proof {
                    assert(all.subrange(0, k + 1).drop_last() =~= all.subrange(0, k));
                    assert(cells_ok(all.subrange(0, k + 1))) by {
                        assert(forall|j: int|
                            0 <= j < k + 1 ==> all.subrange(0, k + 1)[j] == #[trigger] all[j]);
                    }
                }
            },
            Err(e) => {
                proof {
                    assert(exists|j: int|
                        0 <= j < all.len() && cells_ok(all.subrange(0, j))
                            && #[trigger] cell_error_matches(all[j], e, column@)) by {
                        assert(cell_error_matches(all[k], e, column@));
                    }
                }
                return Err(e);
            },
        }
    }
}

/// Builds one raw export row from the five cells of a fetched record, in
/// the fixed column order; the first unreadable cell aborts the row with
/// its error.
pub fn export_row_from_cells(
    name: TextCell,
    start_time: TextCell,
    end_time: TextCell,
    group: TextCell,
    thread: TextCell,
) -> (r: DatabaseResult<ExportRow>)
    ensures
        r is Ok <==> cell_ok(name) && cell_ok(start_time) && cell_ok(end_time) && cell_ok(group)
            && cell_ok(thread),
        r matches Ok(row) ==> row.name@ == cell_value(name) && row.start_time_text@ == cell_value(
            start_time,
        ) && row.end_time_text@ == cell_value(end_time) && row.group@ == cell_value(group)
            && row.thread@ == cell_value(thread),
        r matches Err(e) ==> {
            ||| !cell_ok(name) && cell_error_matches(name, e, "name"@)
            ||| cell_ok(name) && !cell_ok(start_time) && cell_error_matches(
                start_time,
                e,
                "start tame"@,
            )
            ||| cell_ok(name) && cell_ok(start_time) && !cell_ok(end_time) && cell_error_matches(
                end_time,
                e,
                "end time"@,
            )
            ||| cell_ok(name) && cell_ok(start_time) && cell_ok(end_time) && !cell_ok(group)
                && cell_error_matches(group, e, "group name"@)
            ||| cell_ok(name) && cell_ok(start_time) && cell_ok(end_time) && cell_ok(group)
                && !cell_ok(thread) && cell_error_matches(thread, e, "thread name"@)
        },
{
    let name_text = match column_text(name, "name") {
        Ok(v) => v,
        Err(e) => { return Err(e) },
    };
    let start_text = match column_text(start_time, "start tame") {
        Ok(v) => v,
        Err(e) => { return Err(e) },
    };
    let end_text = match column_text(end_time, "end time") {
        Ok(v) => v,
        Err(e) => { return Err(e) },
    };
    let group_text = match column_text(group, "group name") {
        Ok(v) => v,
        Err(e) => { return Err(e) },
    };
    let thread_text = match column_text(thread, "thread name") {
        Ok(v) => v,
        Err(e) => { return Err(e) },
    };
    Ok(
        ExportRow {
            name: name_text,
            start_time_text: start_text,
            end_time_text: end_text,
            group: group_text,
            thread: thread_text,
        },
    )
}

} // verus!
