//! The export orchestrator as an explicit state machine.
//!
//! One `Exporter` drives one export request: it waits for the store
//! connection, owns the spool from the moment the connection is up, feeds
//! transcoded rows into it, and either finishes with a readable spool or
//! fails with the spool already released.  The unverified shell reports
//! connection, fetch and file outcomes as events; every decision between
//! two events is made and verified here.

use vstd::prelude::*;

use crate::error::DatabaseError;
use crate::spool::SpoolPhase;
use crate::spool::TemporaryFile;
use crate::transcode::row_line;
use crate::transcode::transcode;
use crate::transcode::transcode_ok;
use crate::transcode::ExportRow;
use vstd::string::StringExecFns;

verus! {

/// Where an export stands between two events.
#[derive(Clone, Copy, Debug, PartialEq, Eq, Structural)]
pub enum ExportStatus {
    AwaitingConnection,
    Streaming,
    Finished,
    Failed,
}

/// What an export can fail with: a store or transcode failure, or an I/O
/// failure of the spool file.
#[derive(Debug)]
pub enum ExportError {
    Database(DatabaseError),
    Io { message: String },
}

impl ExportError {
    /// The text this failure describes itself with.
    pub open spec fn describe_spec(self) -> Seq<char> {
        match self {
            ExportError::Database(e) => e.describe_spec(),
            ExportError::Io { message } => message@,
        }
    }

    /// Renders the failure for logs and responses.
    pub fn describe(&self) -> (r: String)
        ensures
            r@ == self.describe_spec(),
    {
        match self {
            ExportError::Database(e) => e.describe(),
            ExportError::Io { message } => message.clone(),
        }
    }
}

/// The state of one export request.
#[derive(Debug)]
pub struct Exporter {
    pub temp_path: String,
    pub status: ExportStatus,
    pub spool: Option<TemporaryFile>,
    pub error: Option<ExportError>,
}

/// The concatenation of the output lines of a row sequence, in row order.
pub open spec fn lines_of(rows: Seq<ExportRow>) -> Seq<char>
    decreases rows.len(),
{
    if rows.len() == 0 {
        Seq::empty()
    } else {
        lines_of(rows.drop_last()) + row_line(rows.last())
    }
}

/// Whether every row of the sequence transcodes.
pub open spec fn all_rows_ok(rows: Seq<ExportRow>) -> bool {
    forall|i: int| 0 <= i < rows.len() ==> #[trigger] transcode_ok(rows[i])
}

impl Exporter {
    /// The invariant every transition preserves.  A spool exists exactly
    /// from a successful connection on; a failed export never keeps an
    /// open spool.
    pub open spec fn wf(self) -> bool {
        match self.status {
            ExportStatus::AwaitingConnection => self.spool is None && self.error is None,
            ExportStatus::Streaming => {
                &&& self.spool matches Some(sp) && sp.phase == SpoolPhase::Writing
                    && sp.path@ == self.temp_path@
                &&& self.error is None
            },
            ExportStatus::Finished => {
                &&& self.spool matches Some(sp) && sp.phase == SpoolPhase::Reading
                    && sp.path@ == self.temp_path@
                &&& self.error is None
            },
            ExportStatus::Failed => {
                &&& self.spool matches Some(sp) ==> sp.phase == SpoolPhase::Closed
                    && sp.content@ == Seq::<char>::empty()
                &&& self.error is Some
            },
        }
    }

    /// What the spool holds; empty while none exists.
    pub open spec fn spooled(self) -> Seq<char> {
        match self.spool {
            Some(sp) => sp.content@,
            None => Seq::empty(),
        }
    }

    /// A fresh export that will spool under the given path once its
    /// connection is up.
    pub fn new(temp_path: String) -> (ex: Exporter)
        ensures
            ex.wf(),
            ex.status == ExportStatus::AwaitingConnection,
            ex.temp_path@ == temp_path@,
            ex.spool is None,
    {
        Exporter { temp_path, status: ExportStatus::AwaitingConnection, spool: None, error: None }
    }

    /// The store connection is up: only now the spool comes into being.
    pub fn connection_ok(&mut self)
        requires
            old(self).wf(),
            old(self).status == ExportStatus::AwaitingConnection,
        ensures
            final(self).wf(),
            final(self).status == ExportStatus::Streaming,
            final(self).temp_path@ == old(self).temp_path@,
            final(self).spooled() == Seq::<char>::empty(),
    {
        self.spool = Some(TemporaryFile::new(self.temp_path.clone()));
        self.status = ExportStatus::Streaming;
    }

    /// The store connection failed: the export is over and no spool was
    /// ever created, so there is nothing to clean up.
    pub fn connection_failed(&mut self, message: String)
        requires
            old(self).wf(),
            old(self).status == ExportStatus::AwaitingConnection,
        ensures
            final(self).wf(),
            final(self).status == ExportStatus::Failed,
            final(self).spool is None,
            final(self).error == Some(
                ExportError::Database(DatabaseError::ConnectionError { message }),
            ),
    {
        self.error = Some(ExportError::Database(DatabaseError::connection_error(message)));
        self.status = ExportStatus::Failed;
    }

    /// One fetched row: on success its line goes to the spool, on a
    /// transcode failure the export aborts and the spool is released at
    /// once.
    pub fn row(&mut self, row: &ExportRow) -> (ok: bool)
        requires
            old(self).wf(),
            old(self).status == ExportStatus::Streaming,
        ensures
            final(self).wf(),
            final(self).temp_path@ == old(self).temp_path@,
            ok <==> transcode_ok(*row),
            ok ==> final(self).status == ExportStatus::Streaming && final(self).spooled() == old(
                self,
            ).spooled() + row_line(*row),
            !ok ==> final(self).status == ExportStatus::Failed && (final(self).spool matches Some(
                sp,
            ) && sp.phase == SpoolPhase::Closed) && (final(self).error matches Some(
                ExportError::Database(e),
            ) && e is TimeParseError),
    {
        match transcode(row) {
            Ok(rec) => {
                let line = rec.to_line();
                let mut sp = self.spool.take().unwrap();
                sp.write_line(line.as_str());
                self.spool = Some(sp);
                true
            },
            Err(e) => {
                let mut sp = self.spool.take().unwrap();
                sp.release();
                self.spool = Some(sp);
                self.error = Some(ExportError::Database(e));
                self.status = ExportStatus::Failed;
                false
            },
        }
    }

    /// A store-side failure between two rows: the export aborts and the
    /// spool is released at once.
    pub fn store_failed(&mut self, e: DatabaseError)
        requires
            old(self).wf(),
            old(self).status == ExportStatus::Streaming,
        ensures
            final(self).wf(),
            final(self).status == ExportStatus::Failed,
            final(self).temp_path@ == old(self).temp_path@,
            final(self).spool matches Some(sp) && sp.phase == SpoolPhase::Closed,
            final(self).error == Some(ExportError::Database(e)),
    {
        let mut sp = self.spool.take().unwrap();
        sp.release();
        self.spool = Some(sp);
        self.error = Some(ExportError::Database(e));
        self.status = ExportStatus::Failed;
    }

    /// A file failure while spooling: the export aborts and the spool is
    /// released at once.
    pub fn io_failed(&mut self, message: String)
        requires
            old(self).wf(),
            old(self).status == ExportStatus::Streaming,
        ensures
            final(self).wf(),
            final(self).status == ExportStatus::Failed,
            final(self).temp_path@ == old(self).temp_path@,
            final(self).spool matches Some(sp) && sp.phase == SpoolPhase::Closed,
            final(self).error == Some(ExportError::Io { message }),
    {
        let mut sp = self.spool.take().unwrap();
        sp.release();
        self.spool = Some(sp);
        self.error = Some(ExportError::Io { message });
        self.status = ExportStatus::Failed;
    }

    /// Feeds a batch of rows in order.  Returns true when all of them
    /// went through; on the first transcode failure the export aborts,
    /// everything already spooled is discarded with the released spool,
    /// and no later row is looked at.
    #[verifier::loop_isolation(false)]
    pub fn feed_all(&mut self, rows: &Vec<ExportRow>) -> (ok: bool)
        requires
            old(self).wf(),
            old(self).status == ExportStatus::Streaming,
        ensures
            final(self).wf(),
            final(self).temp_path@ == old(self).temp_path@,
            ok <==> all_rows_ok(rows@),
            ok ==> final(self).status == ExportStatus::Streaming && final(self).spooled() == old(
                self,
            ).spooled() + lines_of(rows@),
            !ok ==> final(self).status == ExportStatus::Failed && (final(self).spool matches Some(
                sp,
            ) && sp.phase == SpoolPhase::Closed) && final(self).error is Some,
            !ok ==> exists|i: int|
                0 <= i < rows@.len() && !(#[trigger] transcode_ok(rows@[i])) && all_rows_ok(
                    rows@.subrange(0, i),
                ),
    {
        let ghost orig = self.spooled();
        let ghost orig_path = self.temp_path@;
        let mut i: usize = 0;
        while i < rows.len()
            invariant
                self.wf(),
                self.status == ExportStatus::Streaming,
                self.temp_path@ == orig_path,
                i <= rows@.len(),
                all_rows_ok(rows@.subrange(0, i as int)),
                self.spooled() == orig + lines_of(rows@.subrange(0, i as int)),
            decreases rows@.len() - i,
        {
            let ok = self.row(&rows[i]);
            if !ok {
                proof {
                    assert(!transcode_ok(rows@[i as int]));
                    assert(exists|k: int|
                        0 <= k < rows@.len() && !(#[trigger] transcode_ok(rows@[k]))
                            && all_rows_ok(rows@.subrange(0, k))) by {
                        assert((i as int) < rows@.len() && !transcode_ok(rows@[i as int])
                            && all_rows_ok(rows@.subrange(0, i as int)));
                    }
                }
                return false;
            }
            proof {
                let prev = rows@.subrange(0, i as int);
                let cur = rows@.subrange(0, (i + 1) as int);
                assert(cur.drop_last() =~= prev);
                assert(cur.last() == rows@[i as int]);
                assert(lines_of(cur) == lines_of(prev) + row_line(rows@[i as int]));
                assert(all_rows_ok(cur)) by {
                    assert(forall|k: int| 0 <= k < cur.len() ==> cur[k] == #[trigger] rows@[k]);
                }
                assert(orig + lines_of(prev) + row_line(rows@[i as int]) =~= orig + lines_of(cur));
            }
            i = i + 1;
        }
        proof {
            assert(rows@.subrange(0, i as int) =~= rows@);
        }
        true
    }

    /// All rows are in: the spool rewinds and the export hands it over
    /// for reading.
    pub fn finish(&mut self)
        requires
            old(self).wf(),
            old(self).status == ExportStatus::Streaming,
        ensures
            final(self).wf(),
            final(self).status == ExportStatus::Finished,
            final(self).temp_path@ == old(self).temp_path@,
            final(self).spooled() == old(self).spooled(),
            final(self).spool matches Some(sp) && sp.phase == SpoolPhase::Reading,
    {
        let mut sp = self.spool.take().unwrap();
        sp.rewind();
        self.spool = Some(sp);
        self.status = ExportStatus::Finished;
    }
}

/// Law: while the connection is not yet up, no spool exists — a failed
/// connection can leave no file behind.
pub proof fn lemma_spool_only_after_connection(ex: Exporter)
    requires
        ex.wf(),
        ex.status == ExportStatus::AwaitingConnection,
    ensures
        ex.spool is None,
{
}

/// Law: a failed export never keeps an open spool; whatever was spooled
/// before the failure is already discarded.
pub proof fn lemma_failed_export_spool_released(ex: Exporter)
    requires
        ex.wf(),
        ex.status == ExportStatus::Failed,
    ensures
        ex.spool matches Some(sp) ==> sp.phase == SpoolPhase::Closed,
        ex.spooled() == Seq::<char>::empty(),
{
    match ex.spool {
        Some(sp) => {
            assert(sp.phase == SpoolPhase::Closed);
        },
        None => {},
    }
}

} // verus!
