//! Per-row transformation into the delimited wire format.
//!
//! A raw row carries five text fields.  The name is stripped of control
//! characters and of the field delimiter, both timestamp texts are parsed,
//! an inverted range is repaired to end one millisecond after it starts,
//! and the result renders as one `name;start;end;group;thread` line.

use vstd::prelude::*;

use crate::error::DatabaseError;
use crate::text::int_str;
use crate::text::i64_to_string;
use crate::timestamp::parse_timestamp;
use crate::timestamp::ts_nsec;
use crate::timestamp::ts_sec;
use crate::timestamp::valid_timestamp;
use crate::timestamp::Timespec;
use crate::timestamp::MAX_EPOCH_SEC;
use crate::timestamp::MIN_EPOCH_SEC;
use vstd::string::StrSliceExecFns;
use vstd::string::StringExecFns;

verus! {

/// A raw export row as the store hands it over: all five fields as text.
#[derive(Debug)]
pub struct ExportRow {
    pub name: String,
    pub start_time_text: String,
    pub end_time_text: String,
    pub group: String,
    pub thread: String,
}

/// A transcoded row: sanitized name, both timestamps as epoch
/// milliseconds, and a range that is guaranteed to be valid.
#[derive(Debug)]
pub struct ExportRecord {
    pub name: String,
    pub start_ms: i64,
    pub end_ms: i64,
    pub group: String,
    pub thread: String,
}

/// The Unicode control characters (the C0 and C1 ranges).
pub open spec fn is_control_char(c: char) -> bool {
    (c as u32) < 32 || (127 <= c as u32 && c as u32 <= 159)
}

/// A character the name sanitation keeps: not a control character and not
/// the field delimiter.
pub open spec fn name_char_kept(c: char) -> bool {
    !is_control_char(c) && c != ';'
}

/// Name sanitation drops the forbidden characters and keeps every other
/// character, in order.
pub open spec fn sanitize_spec(s: Seq<char>) -> Seq<char> {
    s.filter(|c: char| name_char_kept(c))
}

/// The end of the emitted range: the parsed end when the range is valid,
/// otherwise one millisecond past the start.
pub open spec fn repaired_end(start_ms: int, end_ms: int) -> int {
    if start_ms < end_ms {
        end_ms
    } else {
        start_ms + 1
    }
}

/// The epoch milliseconds a timestamp text denotes (fraction truncated).
pub open spec fn timestamp_ms(s: Seq<char>) -> int {
    ts_sec(s) * 1000 + ts_nsec(s) / 1_000_000
}

/// The epoch milliseconds of a parsed timespec (fraction truncated).
pub open spec fn timespec_ms(ts: Timespec) -> int {
    ts.sec * 1000 + ts.nsec / 1_000_000
}

/// One output line, before any row is looked at: sanitized name and the
/// repaired range between the delimiters, a newline at the end.
pub open spec fn dlm_line(
    name: Seq<char>,
    start_ms: int,
    end_ms: int,
    group: Seq<char>,
    thread: Seq<char>,
) -> Seq<char> {
    sanitize_spec(name) + ";"@ + int_str(start_ms) + ";"@ + int_str(
        repaired_end(start_ms, end_ms),
    ) + ";"@ + group + ";"@ + thread + "\n"@
}

/// Whether both timestamp texts of a row parse.
pub open spec fn transcode_ok(row: ExportRow) -> bool {
    valid_timestamp(row.start_time_text@) && valid_timestamp(row.end_time_text@)
}

pub open spec fn row_start_ms(row: ExportRow) -> int {
    timestamp_ms(row.start_time_text@)
}

pub open spec fn row_end_ms(row: ExportRow) -> int {
    repaired_end(row_start_ms(row), timestamp_ms(row.end_time_text@))
}

/// The output line of a row whose timestamps parse.
pub open spec fn row_line(row: ExportRow) -> Seq<char> {
    dlm_line(
        row.name@,
        row_start_ms(row),
        timestamp_ms(row.end_time_text@),
        row.group@,
        row.thread@,
    )
}

impl ExportRecord {
    /// A record the transcoder can produce: a valid range, with both ends
    /// well inside the machine integers.
    pub open spec fn wf(self) -> bool {
        &&& self.start_ms < self.end_ms
        &&& MIN_EPOCH_SEC * 1000 <= self.start_ms
        &&& self.end_ms <= MAX_EPOCH_SEC * 1000 + 1000
    }

    /// The line this record renders to.
    pub open spec fn line(self) -> Seq<char> {
        self.name@ + ";"@ + int_str(self.start_ms as int) + ";"@ + int_str(self.end_ms as int)
            + ";"@ + self.group@ + ";"@ + self.thread@ + "\n"@
    }

    /// Renders the record as one delimited output line.
    pub fn to_line(&self) -> (r: String)
        requires
            self.wf(),
        ensures
            r@ == self.line(),
    {
        let mut out = self.name.clone();
        out.append(";");
        let start_text = i64_to_string(self.start_ms);
        out.append(start_text.as_str());
        out.append(";");
        let end_text = i64_to_string(self.end_ms);
        out.append(end_text.as_str());
        out.append(";");
        out.append(self.group.as_str());
        out.append(";");
        out.append(self.thread.as_str());
        out.append("\n");
        out
    }
}

/// Removes every control character and every delimiter occurrence from a
/// name; all other characters stay, in order.
pub fn sanitize_name(name: &str) -> (r: String)
    ensures
        r@ == sanitize_spec(name@),
{
    let len = name.unicode_len();
    let mut out = String::new();
    let mut i: usize = 0;
    while i < len
        invariant
            i <= len,
            len == name@.len(),
            out@ == sanitize_spec(name@.subrange(0, i as int)),
        decreases len - i,
    {
        let c = name.get_char(i);
        let u = c as u32;
        if !(u < 32 || (127 <= u && u <= 159) || c == ';') {
            out.push(c);
        }
        proof {
            reveal(Seq::filter);
            let prev = name@.subrange(0, i as int);
            assert(name@.subrange(0, (i + 1) as int) =~= prev.push(c));
            assert(prev.push(c).drop_last() =~= prev);
            assert(prev.push(c).last() == c);
        }
        i = i + 1;
    }
    proof {
        assert(name@.subrange(0, len as int) =~= name@);
    }
    out
}

/// The milliseconds a timespec denotes, as the wire format counts them.
pub fn to_millis(ts: &Timespec) -> (ms: i64)
    requires
        ts.wf(),
    ensures
        ms as int == timespec_ms(*ts),
{
    1000 * ts.sec + ((ts.nsec as u64) / 1_000_000) as i64
}

/// Transcodes one raw row: sanitizes the name, parses both timestamps and
/// repairs an inverted range.  Fails, with a `TimeParseError`, exactly
/// when one of the timestamp texts does not parse.
pub fn transcode(row: &ExportRow) -> (r: Result<ExportRecord, DatabaseError>)
    ensures
        r is Ok <==> transcode_ok(*row),
        r is Ok ==> r->Ok_0.name@ == sanitize_spec(row.name@),
        r is Ok ==> r->Ok_0.start_ms as int == row_start_ms(*row),
        r is Ok ==> r->Ok_0.end_ms as int == row_end_ms(*row),
        r is Ok ==> r->Ok_0.group@ == row.group@ && r->Ok_0.thread@ == row.thread@,
        r is Ok ==> r->Ok_0.wf(),
        r is Ok ==> r->Ok_0.line() == row_line(*row),
        r is Err ==> r->Err_0 is TimeParseError,
{
    let start_ts = match parse_timestamp(row.start_time_text.as_str()) {
        Ok(ts) => ts,
        Err(e) => { return Err(e) },
    };
    let end_ts = match parse_timestamp(row.end_time_text.as_str()) {
        Ok(ts) => ts,
        Err(e) => { return Err(e) },
    };
    let start_ms = to_millis(&start_ts);
    let end_parsed_ms = to_millis(&end_ts);
    let end_ms = if start_ms < end_parsed_ms {
        end_parsed_ms
    } else {
        start_ms + 1
    };
    let name = sanitize_name(row.name.as_str());
    Ok(
        ExportRecord {
            name,
            start_ms,
            end_ms,
            group: row.group.clone(),
            thread: row.thread.clone(),
        },
    )
}

/// Builds one output line from the five raw fields, with the parsed
/// timestamps already in hand.
pub fn to_dlm_string(
    name: &str,
    start_date: Timespec,
    end_date: Timespec,
    group: &str,
    thread: &str,
) -> (r: String)
    requires
        start_date.wf(),
        end_date.wf(),
    ensures
        r@ == dlm_line(name@, timespec_ms(start_date), timespec_ms(end_date), group@, thread@),
{
    let start_ms = to_millis(&start_date);
    let end_parsed_ms = to_millis(&end_date);
    let end_ms = if start_ms < end_parsed_ms {
        end_parsed_ms
    } else {
        start_ms + 1
    };
    let mut out = sanitize_name(name);
    out.append(";");
    let start_text = i64_to_string(start_ms);
    out.append(start_text.as_str());
    out.append(";");
    let end_text = i64_to_string(end_ms);
    out.append(end_text.as_str());
    out.append(";");
    out.append(group);
    out.append(";");
    out.append(thread);
    out.append("\n");
    out
}

/// Law: a sanitized name holds no control character and no delimiter; what
/// it holds is exactly the kept characters of the original, in order.
pub proof fn lemma_sanitized_name_clean(name: Seq<char>)
    ensures
        forall|i: int|
            0 <= i < sanitize_spec(name).len() ==> name_char_kept(
                #[trigger] sanitize_spec(name)[i],
            ),
{
    broadcast use vstd::seq_lib::group_filter_ensures;

}

/// Law: a row whose parsed range is already valid keeps its parsed end.
pub proof fn lemma_repair_keeps_valid_range(start_ms: int, end_ms: int)
    requires
        start_ms < end_ms,
    ensures
        repaired_end(start_ms, end_ms) == end_ms,
{
}

/// Law: a row whose parsed range is inverted or empty gets the start plus
/// one millisecond as its end; the start itself is never altered.
pub proof fn lemma_repair_fixes_inverted_range(start_ms: int, end_ms: int)
    requires
        start_ms >= end_ms,
    ensures
        repaired_end(start_ms, end_ms) == start_ms + 1,
{
}

/// Law: whatever the parsed values were, the emitted range is valid.
pub proof fn lemma_repaired_range_valid(start_ms: int, end_ms: int)
    ensures
        start_ms < repaired_end(start_ms, end_ms),
{
}

} // verus!
