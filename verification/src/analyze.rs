//! Which rows of the timing log the analysis counts. The log is CSV with a header
//! line; the reader's records are taken apart here, the timings themselves are
//! single-precision text that the caller parses.

use csv::ReaderBuilder;
use vstd::prelude::*;

verus! {

/// What the CSV reader yields for a log whose first line is its header: each later
/// record as its fields, or the reader's error message.
pub uninterp spec fn csv_log_records(content: Seq<u8>) -> Seq<Result<Seq<Seq<char>>, Seq<char>>>;

/// A record, each string taken by its characters.
pub open spec fn record_view(r: Result<Vec<String>, String>) -> Result<Seq<Seq<char>>, Seq<char>> {
    match r {
        Ok(fields) => Ok(fields@.map_values(|f: String| f@)),
        Err(msg) => Err(msg@),
    }
}

/// Records, each string taken by its characters.
pub open spec fn records_view(rs: Seq<Result<Vec<String>, String>>) -> Seq<Result<Seq<Seq<char>>, Seq<char>>> {
    rs.map_values(|r: Result<Vec<String>, String>| record_view(r))
}

/// A counted row, each string taken by its characters.
pub open spec fn row_view(r: Result<(String, String, String), String>) -> Result<(Seq<char>, Seq<char>, Seq<char>), Seq<char>> {
    match r {
        Ok((a, b, c)) => Ok((a@, b@, c@)),
        Err(msg) => Err(msg@),
    }
}

/// Counted rows, each string taken by its characters.
pub open spec fn rows_view(rs: Seq<Result<(String, String, String), String>>) -> Seq<Result<(Seq<char>, Seq<char>, Seq<char>), Seq<char>>> {
    rs.map_values(|r: Result<(String, String, String), String>| row_view(r))
}

/// A record as the analysis reads it: fields 1, 2 and 3 (generation, processing and
/// transmission time), or the reader's error.
pub open spec fn timing_row(rec: Result<Seq<Seq<char>>, Seq<char>>) -> Result<(Seq<char>, Seq<char>, Seq<char>), Seq<char>> {
    match rec {
        Ok(f) => Ok((f[1], f[2], f[3])),
        Err(msg) => Err(msg),
    }
}

/// The rows the analysis counts: every record after the first, in file order.
pub open spec fn counted_rows(records: Seq<Result<Seq<Seq<char>>, Seq<char>>>) -> Seq<Result<(Seq<char>, Seq<char>, Seq<char>), Seq<char>>> {
    if records.len() == 0 {
        Seq::empty()
    } else {
        records.drop_first().map_values(|r: Result<Seq<Seq<char>>, Seq<char>>| timing_row(r))
    }
}

/// Every record that the analysis reads has the fields it reads.
pub open spec fn rows_have_timings(records: Seq<Result<Seq<Seq<char>>, Seq<char>>>) -> bool {
    forall|i: int| 1 <= i < records.len() ==> (#[trigger] records[i] matches Ok(f) ==> f.len() >= 4)
}

/// Runs the `csv` crate's reader (`ReaderBuilder::new().from_reader(..).records()`,
/// which treats the first line as a header) over `content`. Claims only that the
/// result, each record as its fields and each error as its `Display` message, is the
/// reader's output for these bytes, named `csv_log_records`; what that output is for
/// given bytes is left to the crate.
#[verifier::external_body]
fn read_log_records(content: &[u8]) -> (r: Vec<Result<Vec<String>, String>>)
    ensures
        records_view(r@) == csv_log_records(content@),
{
    let mut out = Vec::new();
    for rec in ReaderBuilder::new().from_reader(content).records() {
        out.push(match rec {
            Ok(fields) => Ok(fields.iter().map(|f| f.to_string()).collect()),
            Err(e) => Err(e.to_string()),
        });
    }
    out
}

/// Every record after the first gives one counted row, in file order: an accepted
/// record its fields 1, 2 and 3, a rejected one its error message. Nothing after the
/// first record is dropped.
pub proof fn lemma_counted_rows(records: Seq<Result<Seq<Seq<char>>, Seq<char>>>)
    ensures
        records.len() == 0 ==> counted_rows(records).len() == 0,
        records.len() > 0 ==> counted_rows(records).len() == records.len() - 1,
        forall|i: int|
            0 <= i < records.len() - 1 ==> (#[trigger] records[i + 1] matches Ok(f) ==> counted_rows(records)[i]
                == Ok::<(Seq<char>, Seq<char>, Seq<char>), Seq<char>>((f[1], f[2], f[3]))),
        forall|i: int|
            0 <= i < records.len() - 1 ==> (#[trigger] records[i + 1] matches Err(msg) ==> counted_rows(records)[i]
                == Err::<(Seq<char>, Seq<char>, Seq<char>), Seq<char>>(msg)),
{
}

/// Whether every record after the first that the reader accepted has at least four
/// fields.
pub fn has_timings(records: &Vec<Result<Vec<String>, String>>) -> (b: bool)
    ensures
        b == rows_have_timings(records_view(records@)),
{
    let mut i: usize = 1;
    while i < records.len()
        invariant
            1 <= i,
            forall|j: int|
                1 <= j < i && j < records@.len() ==> (#[trigger] records_view(records@)[j] matches Ok(f) ==> f.len() >= 4),
        decreases records.len() - i,
    {
        match &records[i] {
            Ok(fields) => {
                if fields.len() < 4 {
                    assert(records_view(records@)[i as int] == record_view(records@[i as int]));
                    return false;
                }
            },
            Err(_) => {},
        }
        assert(records_view(records@)[i as int] == record_view(records@[i as int]));
        i = i + 1;
    }
    true
}

/// The rows the analysis counts: every record after the first, in file order; an
/// accepted record gives its fields 1, 2 and 3, a rejected one its error message.
pub fn timing_rows(records: &Vec<Result<Vec<String>, String>>) -> (r: Vec<Result<(String, String, String), String>>)
    requires
        rows_have_timings(records_view(records@)),
    ensures
        rows_view(r@) == counted_rows(records_view(records@)),
        records@.len() > 0 ==> r@.len() == records@.len() - 1,
        records@.len() == 0 ==> r@.len() == 0,
{
    let ghost view = records_view(records@);
    let mut out: Vec<Result<(String, String, String), String>> = Vec::new();
    if records.len() == 0 {
        assert(rows_view(out@) =~= counted_rows(view));
        return out;
    }
    let mut i: usize = 1;
    while i < records.len()
        invariant
            1 <= i <= records@.len(),
            view == records_view(records@),
            rows_have_timings(view),
            out@.len() == i - 1,
            forall|j: int| 0 <= j < out@.len() ==> row_view(#[trigger] out@[j]) == timing_row(view[j + 1]),
        decreases records.len() - i,
    {
        assert(view[i as int] == record_view(records@[i as int]));
        let row = match &records[i] {
            Ok(fields) => {
                assert(fields@.map_values(|f: String| f@).len() >= 4);
                Ok((fields[1].clone(), fields[2].clone(), fields[3].clone()))
            },
            Err(msg) => Err(msg.clone()),
        };
        out.push(row);
        i = i + 1;
    }
    assert(rows_view(out@) =~= counted_rows(view));
    out
}

/// Reads the log `content` and gives the rows the analysis counts; `None` where a
/// record that it would read has fewer than four fields.
pub fn log_timing_rows(content: &[u8]) -> (r: Option<Vec<Result<(String, String, String), String>>>)
    ensures
        r is Some <==> rows_have_timings(csv_log_records(content@)),
        r matches Some(rows) ==> rows_view(rows@) == counted_rows(csv_log_records(content@)),
        (r matches Some(rows) ==> rows@.len() == counted_rows(csv_log_records(content@)).len()),
{
    let records = read_log_records(content);
    if has_timings(&records) {
        Some(timing_rows(&records))
    } else {
        None
    }
}

} // verus!
