//! The measurement tool's result file: a header row and one row per
//! candidate address, fastest first. Only the first row is read, and of it
//! only the address and the download speed.

use crate::failure::{plain_failure, FailureKind, FailureModel, StepFailure};
use crate::text::{joined, same_text, text_views};
use vstd::prelude::*;

verus! {

/// The header row that the `csv` crate reads from the contents of a file, or
/// the text of the error it ends in.
pub uninterp spec fn csv_header(contents: Seq<char>) -> Result<Seq<Seq<char>>, Seq<char>>;

/// The first row after the header that the `csv` crate reads from the
/// contents of a file: none where the file ends before one, else the row or
/// the text of the error it ends in.
pub uninterp spec fn csv_first_record(contents: Seq<char>) -> Option<
    Result<Seq<Seq<char>>, Seq<char>>,
>;

/// Calls `csv::Reader::headers` on a reader with default settings over the
/// contents. The contract names the outcome and says nothing else of it: the
/// fields of the first row in order, or the text of the crate's error.
#[verifier::external_body]
fn header_row(contents: &str) -> (r: Result<Vec<String>, String>)
    ensures
        match r {
            Ok(row) => csv_header(contents@) == Ok::<Seq<Seq<char>>, Seq<char>>(text_views(row@)),
            Err(e) => csv_header(contents@) == Err::<Seq<Seq<char>>, Seq<char>>(e@),
        },
{
    let mut reader = csv::ReaderBuilder::new().from_reader(contents.as_bytes());
    match reader.headers() {
        Ok(record) => Ok(record.iter().map(String::from).collect()),
        Err(e) => Err(e.to_string()),
    }
}

/// Calls `next` on `csv::Reader::records` of a reader with default settings
/// over the contents, which skips the header row. The contract names the
/// outcome and says nothing else of it: no row, the fields of the row in
/// order, or the text of the crate's error.
#[verifier::external_body]
fn first_record(contents: &str) -> (r: Option<Result<Vec<String>, String>>)
    ensures
        match r {
            None => csv_first_record(contents@) is None,
            Some(Ok(row)) => csv_first_record(contents@) == Some(
                Ok::<Seq<Seq<char>>, Seq<char>>(text_views(row@)),
            ),
            Some(Err(e)) => csv_first_record(contents@) == Some(
                Err::<Seq<Seq<char>>, Seq<char>>(e@),
            ),
        },
{
    let mut reader = csv::ReaderBuilder::new().from_reader(contents.as_bytes());
    match reader.records().next() {
        None => None,
        Some(Ok(record)) => Some(Ok(record.iter().map(String::from).collect())),
        Some(Err(e)) => Some(Err(e.to_string())),
    }
}

/// The name of the column that holds the address.
pub open spec fn ip_column() -> Seq<char> {
    "IP 地址"@
}

/// The name of the column that holds the download speed in MB/s.
pub open spec fn speed_column() -> Seq<char> {
    "下载速度 (MB/s)"@
}

/// What is said of a file without a measurement.
pub open spec fn no_entries_text() -> Seq<char> {
    "No entries found in the CSV result."@
}

/// What is said of a row that ends before the header does.
pub open spec fn short_row_text() -> Seq<char> {
    "The first row has fewer fields than the header."@
}

/// What is said of a column that the header does not name.
pub open spec fn missing_text(name: Seq<char>) -> Seq<char> {
    "missing column: "@ + name
}

/// What is said of a column that the header names more than once.
pub open spec fn duplicate_text(name: Seq<char>) -> Seq<char> {
    "duplicate column: "@ + name
}

/// Where a header names a column.
#[derive(Clone, Copy, Debug, PartialEq, Eq, Structural)]
pub enum Column {
    /// No field of the header has the name.
    Missing,
    /// More than one field of the header has the name.
    Duplicate,
    /// Exactly the field at this index has the name.
    At(usize),
}

/// Whether field `i` of the header has the name.
pub open spec fn names_column(header: Seq<Seq<char>>, name: Seq<char>, i: int) -> bool {
    0 <= i < header.len() && header[i] == name
}

/// Where the header names the column.
pub open spec fn column_of(header: Seq<Seq<char>>, name: Seq<char>) -> Column {
    if forall|i: int| !names_column(header, name, i) {
        Column::Missing
    } else {
        let first = choose|i: int| names_column(header, name, i);
        if forall|j: int| names_column(header, name, j) ==> j == first {
            Column::At(first as usize)
        } else {
            Column::Duplicate
        }
    }
}

/// The address and the download speed of one row, as the file spells them.
#[derive(Clone, Debug)]
pub struct Reading {
    pub ip: String,
    pub speed: String,
}

/// A reading as plain values.
pub struct ReadingView {
    pub ip: Seq<char>,
    pub speed: Seq<char>,
}

impl View for Reading {
    type V = ReadingView;

    open spec fn view(&self) -> ReadingView {
        ReadingView { ip: self.ip@, speed: self.speed@ }
    }
}

/// A failure to parse, with the given text.
pub open spec fn parse_failure(detail: Seq<char>) -> FailureModel {
    plain_failure(FailureKind::ParseFailure, detail)
}

/// The reading that a header and the outcome of reading the first row give.
/// It takes a row that is as long as the header, and a header that names
/// each of the two columns exactly once.
pub open spec fn extracted(
    header: Seq<Seq<char>>,
    first: Option<Result<Seq<Seq<char>>, Seq<char>>>,
) -> Result<ReadingView, FailureModel> {
    match first {
        None => Err(parse_failure(no_entries_text())),
        Some(Err(e)) => Err(parse_failure(e)),
        Some(Ok(row)) => if row.len() < header.len() {
            Err(parse_failure(short_row_text()))
        } else {
            match column_of(header, ip_column()) {
                Column::Missing => Err(parse_failure(missing_text(ip_column()))),
                Column::Duplicate => Err(parse_failure(duplicate_text(ip_column()))),
                Column::At(i) => match column_of(header, speed_column()) {
                    Column::Missing => Err(parse_failure(missing_text(speed_column()))),
                    Column::Duplicate => Err(parse_failure(duplicate_text(speed_column()))),
                    Column::At(j) => Ok(ReadingView { ip: row[i as int], speed: row[j as int] }),
                },
            }
        },
    }
}

/// The reading that the contents of a result file give.
pub open spec fn parsed(contents: Seq<char>) -> Result<ReadingView, FailureModel> {
    match csv_header(contents) {
        Err(e) => Err(parse_failure(e)),
        Ok(header) => extracted(header, csv_first_record(contents)),
    }
}

/// Finds the one field of the header that has the given name.
pub fn locate(header: &Vec<String>, name: &str) -> (found: Column)
    ensures
        found == column_of(text_views(header@), name@),
        match found {
            Column::Missing => forall|i: int| !names_column(text_views(header@), name@, i),
            Column::At(at) => names_column(text_views(header@), name@, at as int) && forall|j: int|
                names_column(text_views(header@), name@, j) ==> j == at,
            Column::Duplicate => exists|i: int, j: int|
                i != j && names_column(text_views(header@), name@, i) && names_column(
                    text_views(header@),
                    name@,
                    j,
                ),
        },
{
    let ghost fields = text_views(header@);
    let mut found = Column::Missing;
    let mut i: usize = 0;
    while i < header.len()
        invariant
            i <= header.len(),
            fields == text_views(header@),
            fields.len() == header.len(),
            match found {
                Column::Missing => forall|k: int| 0 <= k < i ==> !names_column(fields, name@, k),
                Column::At(at) => at < i && names_column(fields, name@, at as int) && forall|
                    k: int,
                |
                    0 <= k < i && names_column(fields, name@, k) ==> k == at,
                Column::Duplicate => exists|a: int, b: int|
                    a != b && names_column(fields, name@, a) && names_column(fields, name@, b),
            },
        decreases header.len() - i,
    {
        assert(fields[i as int] == header@[i as int]@);
        if same_text(header[i].as_str(), name) {
            match found {
                Column::Missing => {
                    found = Column::At(i);
                },
                Column::At(at) => {
                    assert(names_column(fields, name@, at as int) && names_column(
                        fields,
                        name@,
                        i as int,
                    ));
                    found = Column::Duplicate;
                },
                Column::Duplicate => {},
            }
        }
        i = i + 1;
    }
    proof {
        lemma_column_decided(fields, name@, found);
    }
    found
}

/// A column that is told apart by what holds of the whole header is the one
/// that `column_of` gives.
proof fn lemma_column_decided(header: Seq<Seq<char>>, name: Seq<char>, found: Column)
    requires
        match found {
            Column::Missing => forall|i: int| !names_column(header, name, i),
            Column::At(at) => names_column(header, name, at as int) && forall|j: int|
                names_column(header, name, j) ==> j == at,
            Column::Duplicate => exists|i: int, j: int|
                i != j && names_column(header, name, i) && names_column(header, name, j),
        },
    ensures
        found == column_of(header, name),
{
    match found {
        Column::Missing => {},
        Column::At(at) => {
            let first = choose|i: int| names_column(header, name, i);
            assert(names_column(header, name, first));
            assert(first == at);
        },
        Column::Duplicate => {
            let (a, b) = choose|i: int, j: int|
                i != j && names_column(header, name, i) && names_column(header, name, j);
            let first = choose|i: int| names_column(header, name, i);
            assert(names_column(header, name, a));
            assert(names_column(header, name, b));
        },
    }
}

/// Reads the address and the download speed out of the first row, given the
/// header and what reading the first row came to.
pub fn extract(header: &Vec<String>, first: Option<Result<Vec<String>, String>>) -> (r: Result<
    Reading,
    StepFailure,
>)
    ensures
        match r {
            Ok(reading) => extracted(text_views(header@), rows_view(first)) == Ok::<
                ReadingView,
                FailureModel,
            >(reading@),
            Err(f) => extracted(text_views(header@), rows_view(first)) == Err::<
                ReadingView,
                FailureModel,
            >(f@),
        },
        first is None ==> r is Err && r->Err_0@ == parse_failure(no_entries_text()),
        r matches Err(f) ==> f.kind == FailureKind::ParseFailure && f.body@.len() == 0,
{
    match first {
        None => Err(
            StepFailure::new(
                FailureKind::ParseFailure,
                "No entries found in the CSV result.".to_owned(),
            ),
        ),
        Some(Err(e)) => Err(StepFailure::new(FailureKind::ParseFailure, e)),
        Some(Ok(row)) => {
            assert(text_views(row@).len() == row.len());
            assert(text_views(header@).len() == header.len());
            if row.len() < header.len() {
                return Err(
                    StepFailure::new(
                        FailureKind::ParseFailure,
                        "The first row has fewer fields than the header.".to_owned(),
                    ),
                );
            }
            match locate(header, "IP 地址") {
                Column::Missing => Err(
                    StepFailure::new(
                        FailureKind::ParseFailure,
                        joined("missing column: ", "IP 地址"),
                    ),
                ),
                Column::Duplicate => Err(
                    StepFailure::new(
                        FailureKind::ParseFailure,
                        joined("duplicate column: ", "IP 地址"),
                    ),
                ),
                Column::At(i) => match locate(header, "下载速度 (MB/s)") {
                    Column::Missing => Err(
                        StepFailure::new(
                            FailureKind::ParseFailure,
                            joined("missing column: ", "下载速度 (MB/s)"),
                        ),
                    ),
                    Column::Duplicate => Err(
                        StepFailure::new(
                            FailureKind::ParseFailure,
                            joined("duplicate column: ", "下载速度 (MB/s)"),
                        ),
                    ),
                    Column::At(j) => {
                        assert(text_views(row@)[i as int] == row@[i as int]@);
                        assert(text_views(row@)[j as int] == row@[j as int]@);
                        Ok(Reading { ip: row[i].clone(), speed: row[j].clone() })
                    },
                },
            }
        },
    }
}

/// The outcome of reading a row, as plain values.
pub open spec fn rows_view(first: Option<Result<Vec<String>, String>>) -> Option<
    Result<Seq<Seq<char>>, Seq<char>>,
> {
    match first {
        None => None,
        Some(Ok(row)) => Some(Ok(text_views(row@))),
        Some(Err(e)) => Some(Err(e@)),
    }
}

/// Parses the contents of a result file into the reading of its first row.
/// A file without a row after the header is a failure, as is a file that the
/// `csv` crate rejects.
pub fn parse_csv_result(contents: &str) -> (r: Result<Reading, StepFailure>)
    ensures
        match r {
            Ok(reading) => parsed(contents@) == Ok::<ReadingView, FailureModel>(reading@),
            Err(f) => parsed(contents@) == Err::<ReadingView, FailureModel>(f@),
        },
        csv_header(contents@) is Ok && csv_first_record(contents@) is None ==> r is Err
            && r->Err_0@ == parse_failure(no_entries_text()),
        r matches Err(f) ==> f.kind == FailureKind::ParseFailure && f.body@.len() == 0,
{
    match header_row(contents) {
        Err(e) => Err(StepFailure::new(FailureKind::ParseFailure, e)),
        Ok(header) => {
            let first = first_record(contents);
            extract(&header, first)
        },
    }
}

} // verus!
