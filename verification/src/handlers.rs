//! The request handlers' verified state: one handler per route, and the
//! temporary-file naming scheme whose collision freedom the concurrent
//! exports rely on.

use vstd::prelude::*;

use crate::text::dec_str;
use crate::text::lemma_dec_str_injective;
use crate::text::lemma_dec_str_len;
use crate::text::u64_to_string;
use vstd::string::StringExecFns;

verus! {

/// The path of the spool file of the request with the given index.
pub open spec fn temp_file_path(dir: Seq<char>, index: nat) -> Seq<char> {
    dir + "/response-"@ + dec_str(index) + ".tmp"@
}

/// Handles the export route.  It owns the directory the spool files go
/// to and the one piece of state all requests share: the index counter
/// behind the collision-free spool file names.
#[derive(Debug)]
pub struct DataHandler {
    pub temp_dir: String,
    pub request_index: usize,
}

impl DataHandler {
    pub fn new() -> (h: DataHandler)
        ensures
            h.temp_dir@ == "."@,
            h.request_index == 0,
    {
        DataHandler { temp_dir: ".".to_owned(), request_index: 0 }
    }

    /// The spool path for the next request: the directory, the fixed stem
    /// and the current index, which no later request will see again.
    pub fn next_temporary_path(&mut self) -> (r: String)
        requires
            old(self).request_index < usize::MAX,
        ensures
            r@ == temp_file_path(old(self).temp_dir@, old(self).request_index as nat),
            final(self).temp_dir@ == old(self).temp_dir@,
            final(self).request_index == old(self).request_index + 1,
    {
        let index = self.request_index;
        self.request_index = self.request_index + 1;
        let mut path = self.temp_dir.clone();
        path.append("/response-");
        let digits = u64_to_string(index as u64);
        path.append(digits.as_str());
        path.append(".tmp");
        path
    }
}

/// Handles the database-listing route.
#[derive(Debug)]
pub struct DatabasesHandler {}

impl DatabasesHandler {
    pub fn new() -> DatabasesHandler {
        DatabasesHandler {  }
    }
}

/// Handles the stage-listing route.
#[derive(Debug)]
pub struct StagesHandler {}

impl StagesHandler {
    pub fn new() -> StagesHandler {
        StagesHandler {  }
    }
}

/// Law: under one directory, distinct request indices name distinct
/// spool files — concurrent exports never collide on a path.
pub proof fn lemma_temp_path_injective(dir: Seq<char>, i: nat, j: nat)
    requires
        i != j,
    ensures
        temp_file_path(dir, i) != temp_file_path(dir, j),
{
    reveal_strlit("/response-");
    reveal_strlit(".tmp");
    if temp_file_path(dir, i) == temp_file_path(dir, j) {
        lemma_dec_str_len(i);
        lemma_dec_str_len(j);
        let a = dec_str(i);
        let b = dec_str(j);
        assert(("/response-"@).len() == 10);
        assert((".tmp"@).len() == 4);
        assert(temp_file_path(dir, i).len() == dir.len() + 10 + a.len() + 4);
        assert(a.len() == b.len());
        let off = dir.len() + 10;
        assert(temp_file_path(dir, i).subrange(off as int, (off + a.len()) as int) =~= a);
        assert(temp_file_path(dir, j).subrange(off as int, (off + b.len()) as int) =~= b);
        assert(a == b);
        lemma_dec_str_injective(i, j);
    }
}

} // verus!
