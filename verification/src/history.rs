//! Lookup records and the rows they are stored as.
//!
//! The history is a table with one row per lookup, in the order in which the
//! lookups were made. A row holds the two codes, the rate and a word for the
//! trend. The library turns a record into its row and rows back into records;
//! writing and reading the table is the caller's part.

use crate::rate::{colour_of, Colour, RateSample, Trend};
use vstd::prelude::*;

verus! {

/// One lookup: the pair, today's rate and the trend since the day before.
#[derive(Debug, PartialEq, Eq)]
pub struct Record {
    pub currency1: String,
    pub currency2: String,
    pub rate: RateSample,
    pub trend: Trend,
}

/// A `Record` with its codes as sequences of characters.
pub struct RecordView {
    pub currency1: Seq<char>,
    pub currency2: Seq<char>,
    pub rate: RateSample,
    pub trend: Trend,
}

impl View for Record {
    type V = RecordView;

    open spec fn view(&self) -> RecordView {
        RecordView {
            currency1: self.currency1@,
            currency2: self.currency2@,
            rate: self.rate,
            trend: self.trend,
        }
    }
}

/// One row of the history table.
#[derive(Debug, PartialEq, Eq)]
pub struct Row {
    pub cur1: String,
    pub cur2: String,
    pub rate: RateSample,
    pub color: String,
}

/// A `Row` with its texts as sequences of characters.
pub struct RowView {
    pub cur1: Seq<char>,
    pub cur2: Seq<char>,
    pub rate: RateSample,
    pub color: Seq<char>,
}

impl View for Row {
    type V = RowView;

    open spec fn view(&self) -> RowView {
        RowView { cur1: self.cur1@, cur2: self.cur2@, rate: self.rate, color: self.color@ }
    }
}

/// One line of the history as it is shown: the pair, then the rate in a colour.
#[derive(Debug, PartialEq, Eq)]
pub struct Line {
    pub label: String,
    pub rate: RateSample,
    pub colour: Colour,
}

/// Why the history could not be written or read.
#[derive(Clone, Copy, Debug, PartialEq, Eq, Structural)]
pub enum StoreError {
    /// The table could not be opened, written or read.
    StoreUnavailable,
    /// A row holds a word that stands for no trend.
    CorruptRecord,
}

/// The word that a trend is stored as.
pub open spec fn token_of(trend: Trend) -> Seq<char> {
    match trend {
        Trend::Decreased => "red"@,
        Trend::Increased => "green"@,
        Trend::Unchanged => "normal"@,
    }
}

/// The trend that a stored word stands for, if it stands for one.
pub open spec fn trend_of_token(token: Seq<char>) -> Option<Trend> {
    if token == "red"@ {
        Some(Trend::Decreased)
    } else if token == "green"@ {
        Some(Trend::Increased)
    } else if token == "normal"@ {
        Some(Trend::Unchanged)
    } else {
        None
    }
}

/// The row that a record is stored as.
pub open spec fn row_of(record: RecordView) -> RowView {
    RowView {
        cur1: record.currency1,
        cur2: record.currency2,
        rate: record.rate,
        color: token_of(record.trend),
    }
}

/// The record that a row stands for, if its word stands for a trend.
pub open spec fn record_of(row: RowView) -> Option<RecordView> {
    match trend_of_token(row.color) {
        Some(trend) => Some(
            RecordView { currency1: row.cur1, currency2: row.cur2, rate: row.rate, trend },
        ),
        None => None,
    }
}

/// The records that the rows stand for, in the order of the rows, if every
/// row stands for one.
pub open spec fn records_of(rows: Seq<RowView>) -> Option<Seq<RecordView>> {
    if forall|i: int| 0 <= i < rows.len() ==> record_of(#[trigger] rows[i]) is Some {
        Some(Seq::new(rows.len(), |i: int| record_of(rows[i])->0))
    } else {
        None
    }
}

/// What reading the history gives: `stored` is the table's rows, or `None`
/// where the table could not be read.
pub open spec fn history_of(stored: Option<Seq<RowView>>) -> Result<Seq<RecordView>, StoreError> {
    match stored {
        None => Err(StoreError::StoreUnavailable),
        Some(rows) => match records_of(rows) {
            Some(records) => Ok(records),
            None => Err(StoreError::CorruptRecord),
        },
    }
}

/// `result` is what reading `stored` gives, record for record.
pub open spec fn is_history_of(
    stored: Option<Seq<RowView>>,
    result: Result<Vec<Record>, StoreError>,
) -> bool {
    match result {
        Ok(records) => history_of(stored) == Ok::<Seq<RecordView>, StoreError>(
            record_views(records@),
        ),
        Err(e) => history_of(stored) == Err::<Seq<RecordView>, StoreError>(e),
    }
}

/// The views of the rows, in order.
pub open spec fn row_views(rows: Seq<Row>) -> Seq<RowView> {
    rows.map_values(|row: Row| row@)
}

/// What was read from the table, with each row as its view.
pub open spec fn stored_views(stored: Option<Vec<Row>>) -> Option<Seq<RowView>> {
    match stored {
        Some(rows) => Some(row_views(rows@)),
        None => None,
    }
}

/// The views of the records, in order.
pub open spec fn record_views(records: Seq<Record>) -> Seq<RecordView> {
    records.map_values(|record: Record| record@)
}

/// The text in front of the rate in a line of the history: `USD->CHF: `.
pub open spec fn label_of(record: RecordView) -> Seq<char> {
    record.currency1 + "->"@ + record.currency2 + ": "@
}

/// The three words are told apart by their lengths.
pub proof fn lemma_tokens_differ()
    ensures
        "red"@ != "green"@,
        "red"@ != "normal"@,
        "green"@ != "normal"@,
{
    reveal_strlit("red");
    reveal_strlit("green");
    reveal_strlit("normal");
    assert("red"@.len() == 3);
    assert("green"@.len() == 5);
    assert("normal"@.len() == 6);
}

/// A trend put into its word and read back is the same trend.
pub proof fn lemma_token_round_trip(trend: Trend)
    ensures
        trend_of_token(token_of(trend)) == Some(trend),
{
    lemma_tokens_differ();
}

/// A record put into a row and read back is the same record, field by field:
/// both codes, the rate bit for bit, and the trend.
pub proof fn lemma_row_round_trip(record: RecordView)
    ensures
        record_of(row_of(record)) == Some(record),
{
    lemma_token_round_trip(record.trend);
}

/// After a record is appended to a readable history, reading gives the
/// records that were there before, in their order, and then the new one.
pub proof fn lemma_append_then_list(rows: Seq<RowView>, record: RecordView)
    requires
        records_of(rows) is Some,
    ensures
        records_of(rows.push(row_of(record))) == Some(records_of(rows)->0.push(record)),
        records_of(rows.push(row_of(record)))->0.last() == record,
{
    let longer = rows.push(row_of(record));
    lemma_row_round_trip(record);
    assert forall|i: int| 0 <= i < longer.len() implies record_of(#[trigger] longer[i]) is Some by {
        if i < rows.len() {
            assert(longer[i] == rows[i]);
        }
    }
}

/// A history with a row that stands for no record stays unreadable whatever
/// is appended to it.
pub proof fn lemma_corrupt_stays_corrupt(rows: Seq<RowView>, record: RecordView)
    requires
        records_of(rows) is None,
    ensures
        records_of(rows.push(row_of(record))) is None,
{
    let longer = rows.push(row_of(record));
    let i = choose|i: int| 0 <= i < rows.len() && !(record_of(#[trigger] rows[i]) is Some);
    assert(longer[i] == rows[i]);
}

/// Two reads of the same rows, with nothing appended between them, agree:
/// both fail with the same error, or both give the same records in the same
/// order.
pub proof fn lemma_reads_agree(
    stored: Option<Seq<RowView>>,
    first: Result<Vec<Record>, StoreError>,
    second: Result<Vec<Record>, StoreError>,
)
    requires
        is_history_of(stored, first),
        is_history_of(stored, second),
    ensures
        match (first, second) {
            (Ok(a), Ok(b)) => record_views(a@) == record_views(b@),
            (Err(a), Err(b)) => a == b,
            _ => false,
        },
{
}

impl Trend {
    /// The word this trend is stored as.
    pub fn token(self) -> (token: String)
        ensures
            token@ == token_of(self),
    {
        match self {
            Trend::Decreased => String::from_str("red"),
            Trend::Increased => String::from_str("green"),
            Trend::Unchanged => String::from_str("normal"),
        }
    }

    /// Reads a stored word. Only the three words that `token` writes stand
    /// for a trend.
    pub fn from_token(token: &str) -> (trend: Option<Trend>)
        ensures
            trend == trend_of_token(token@),
    {
        let word = String::from_str(token);
        if word == String::from_str("red") {
            Some(Trend::Decreased)
        } else if word == String::from_str("green") {
            Some(Trend::Increased)
        } else if word == String::from_str("normal") {
            Some(Trend::Unchanged)
        } else {
            None
        }
    }
}

/// Makes the row under which a record goes into the history.
pub fn insert_record_into_db(record: &Record) -> (row: Row)
    ensures
        row@ == row_of(record@),
{
    Row {
        cur1: record.currency1.clone(),
        cur2: record.currency2.clone(),
        rate: record.rate,
        color: record.trend.token(),
    }
}

/// Reports how a write to the history ended: a record that could not be
/// written is an error, never a silent loss.
pub fn insert_outcome(written: bool) -> (result: Result<(), StoreError>)
    ensures
        written <==> result is Ok,
        !written <==> result == Err::<(), StoreError>(StoreError::StoreUnavailable),
{
    if written {
        Ok(())
    } else {
        Err(StoreError::StoreUnavailable)
    }
}

/// Reads one row back into a record.
pub fn read_row(row: &Row) -> (result: Option<Record>)
    ensures
        match result {
            Some(record) => record_of(row@) == Some(record@),
            None => record_of(row@) is None,
        },
{
    match Trend::from_token(row.color.as_str()) {
        Some(trend) => Some(
            Record {
                currency1: row.cur1.clone(),
                currency2: row.cur2.clone(),
                rate: row.rate,
                trend,
            },
        ),
        None => None,
    }
}

/// Turns what was read from the history table into records.
///
/// `stored` holds the rows in the order in which they were written, or `None`
/// where the table could not be read. The records come out in the order of the
/// rows. One row with an unknown word makes the whole read a `CorruptRecord`.
pub fn get_history_from_db(stored: Option<Vec<Row>>) -> (result: Result<Vec<Record>, StoreError>)
    ensures
        is_history_of(stored_views(stored), result),
{
    match stored {
        None => Err(StoreError::StoreUnavailable),
        Some(rows) => {
            let mut records: Vec<Record> = Vec::new();
            let mut i: usize = 0;
            while i < rows.len()
                invariant
                    stored_views(stored) == Some(row_views(rows@)),
                    i <= rows.len(),
                    records.len() == i,
                    forall|j: int|
                        0 <= j < i ==> record_of(#[trigger] rows@[j]@) == Some(records@[j]@),
                decreases rows.len() - i,
            {
                match read_row(&rows[i]) {
                    Some(record) => {
                        records.push(record);
                    },
                    None => {
                        proof {
                            let views = row_views(rows@);
                            assert(views[i as int] == rows@[i as int]@);
                        }
                        return Err(StoreError::CorruptRecord);
                    },
                }
                i += 1;
            }
            proof {
                let views = row_views(rows@);
                assert forall|j: int| 0 <= j < views.len() implies record_of(
                    #[trigger] views[j],
                ) == Some(records@[j]@) by {
                    assert(views[j] == rows@[j]@);
                }
                assert(records_of(views)->0 =~= record_views(records@));
            }
            Ok(records)
        },
    }
}

/// Makes the lines that show the history, one per record and in their order.
///
/// A line is the pair as `USD->CHF: `, the rate, and the colour of the
/// record's trend.
pub fn print_records(records: &Vec<Record>) -> (lines: Vec<Line>)
    ensures
        lines.len() == records.len(),
        forall|i: int|
            0 <= i < records.len() ==> {
                &&& (#[trigger] lines@[i]).label@ == label_of(records@[i]@)
                &&& lines@[i].rate == records@[i].rate
                &&& lines@[i].colour == colour_of(records@[i].trend)
            },
{
    let mut lines: Vec<Line> = Vec::new();
    let mut i: usize = 0;
    while i < records.len()
        invariant
            i <= records.len(),
            lines.len() == i,
            forall|j: int|
                0 <= j < i ==> {
                    &&& (#[trigger] lines@[j]).label@ == label_of(records@[j]@)
                    &&& lines@[j].rate == records@[j].rate
                    &&& lines@[j].colour == colour_of(records@[j].trend)
                },
        decreases records.len() - i,
    {
        let record = &records[i];
        let mut label = String::from_str(record.currency1.as_str());
        label.append("->");
        label.append(record.currency2.as_str());
        label.append(": ");
        lines.push(Line { label, rate: record.rate, colour: record.trend.colour() });
        i += 1;
    }
    lines
}

} // verus!
