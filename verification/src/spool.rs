//! Model of the self-deleting temporary spool file.
//!
//! The spool buffers the output lines of one export.  Its life is a strict
//! sequence of phases: writing, then reading after a rewind, then closed
//! once it is released.  An operation against the wrong phase is ruled out
//! by contract — never a silent no-op.  The unverified shell mirrors each
//! transition onto a real file and deletes that file when the spool here
//! is released.

use vstd::prelude::*;
use vstd::string::StringExecFns;

verus! {

/// The lifecycle phase of a spool: write phase, read phase, or closed
/// (the backing file is gone).
#[derive(Clone, Copy, Debug, PartialEq, Eq, Structural)]
pub enum SpoolPhase {
    Writing,
    Reading,
    Closed,
}

/// A temporary file as the export pipeline sees it: its path, its phase,
/// and everything written into it so far.
#[derive(Debug)]
pub struct TemporaryFile {
    pub path: String,
    pub phase: SpoolPhase,
    pub content: String,
}

impl TemporaryFile {
    /// Opens a fresh spool at the given path: write phase, empty.
    pub fn new(path: String) -> (t: TemporaryFile)
        ensures
            t.path@ == path@,
            t.phase == SpoolPhase::Writing,
            t.content@ == Seq::<char>::empty(),
    {
        TemporaryFile { path, phase: SpoolPhase::Writing, content: String::new() }
    }

    /// Appends text during the write phase; nothing else changes.
    pub fn write_line(&mut self, line: &str)
        requires
            old(self).phase == SpoolPhase::Writing,
        ensures
            final(self).phase == SpoolPhase::Writing,
            final(self).path@ == old(self).path@,
            final(self).content@ == old(self).content@ + line@,
    {
        self.content.append(line);
    }

    /// Ends the write phase: the spool repositions at its start and from
    /// now on only hands data out.
    pub fn rewind(&mut self)
        requires
            old(self).phase == SpoolPhase::Writing,
        ensures
            final(self).phase == SpoolPhase::Reading,
            final(self).path@ == old(self).path@,
            final(self).content@ == old(self).content@,
    {
        self.phase = SpoolPhase::Reading;
    }

    /// Everything the spool holds; only the read phase allows reading.
    pub fn read_all(&self) -> (r: &String)
        requires
            self.phase == SpoolPhase::Reading,
        ensures
            r@ == self.content@,
    {
        &self.content
    }

    /// Releases the spool: its content is gone and no phase ever follows
    /// the closed one, so release happens at most once.
    pub fn release(&mut self)
        requires
            old(self).phase != SpoolPhase::Closed,
        ensures
            final(self).phase == SpoolPhase::Closed,
            final(self).path@ == old(self).path@,
            final(self).content@ == Seq::<char>::empty(),
    {
        self.phase = SpoolPhase::Closed;
        self.content = String::new();
    }
}

} // verus!
