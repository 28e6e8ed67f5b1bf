//! The attendance sheet of a course as a CSV file.

use crate::db::attendance::AttendanceRecord;
use crate::errors::AppError;
use crate::errors::ErrorView;
use crate::ids::format_uuid;
use crate::ids::uuid_text;
use vstd::prelude::*;
use vstd::string::*;

verus! {

/// What the `csv` crate writes for the rows, each a list of fields; nothing
/// where it refuses them, as it does for rows of unequal length.
pub uninterp spec fn csv_bytes(rows: Seq<Seq<Seq<char>>>) -> Option<Seq<u8>>;

/// The date and time that `chrono` writes for an instant, as
/// `NaiveDateTime`'s `Display` does; nothing for an instant outside the
/// range of its calendar.
pub uninterp spec fn naive_text(at: i64) -> Option<Seq<char>>;

/// What `str::to_lowercase` makes of a text.
pub uninterp spec fn lowercase_text(text: Seq<char>) -> Seq<char>;

/// Writes the rows with a `csv::Writer` over a byte buffer: one
/// `write_record` per row, then `into_inner`. The bytes depend on the rows
/// alone.
#[verifier::external_body]
pub(crate) fn write_csv(rows: &Vec<Vec<String>>) -> (out: Option<Vec<u8>>)
    ensures
        match csv_bytes(rows.deep_view()) {
            Some(bytes) => out is Some && out->Some_0@ == bytes,
            None => out is None,
        },
{
    let mut writer = csv::Writer::from_writer(Vec::new());
    for row in rows.iter() {
        writer.write_record(row).ok()?;
    }
    writer.into_inner().ok()
}

/// Writes an instant as date and time in UTC with
/// `chrono::DateTime::from_timestamp_millis` and `NaiveDateTime`'s
/// `Display`. The text depends on the instant alone.
#[verifier::external_body]
pub(crate) fn format_instant(at: i64) -> (text: Option<String>)
    ensures
        match naive_text(at) {
            Some(written) => text is Some && text->Some_0@ == written,
            None => text is None,
        },
{
    chrono::DateTime::from_timestamp_millis(at).map(|instant| instant.naive_utc().to_string())
}

/// Puts a text in lower case with `str::to_lowercase`.
#[verifier::external_body]
pub(crate) fn lowercase(text: &str) -> (lower: String)
    ensures
        lower@ == lowercase_text(text@),
{
    text.to_lowercase()
}

/// The text of an instant in a sheet; empty where the instant cannot be
/// written.
pub open spec fn instant_text(at: i64) -> Seq<char> {
    match naive_text(at) {
        Some(text) => text,
        None => Seq::empty(),
    }
}

/// The first row of a sheet.
pub open spec fn header_row() -> Seq<Seq<char>> {
    seq!["Timestamp"@, "Student Name"@, "Student ID"@, "Course Name"@, "Course ID"@]
}

/// The row of one record.
pub open spec fn record_row(
    timestamp: i64,
    student_name: Seq<char>,
    student_id: Seq<char>,
    course_name: Seq<char>,
    course_id: u128,
) -> Seq<Seq<char>> {
    seq![instant_text(timestamp), student_name, student_id, course_name, uuid_text(course_id)]
}

/// The text with every space replaced by an underscore.
pub open spec fn underscored(text: Seq<char>) -> Seq<char> {
    Seq::new(
        text.len(),
        |i: int|
            if text[i] == ' ' {
                '_'
            } else {
                text[i]
            },
    )
}

/// The name of the sheet of a course exported on a date.
pub open spec fn sheet_name(course_name: Seq<char>, date: Seq<char>) -> Seq<char> {
    "attendance_"@ + lowercase_text(underscored(course_name)) + "_"@ + date + ".csv"@
}

/// Replaces every space by an underscore.
pub fn replace_spaces(text: &str) -> (out: String)
    ensures
        out@ == underscored(text@),
{
    let n: usize = text.unicode_len();
    let mut out = String::new();
    let mut i: usize = 0;
    while i < n
        invariant
            n == text@.len(),
            i <= n,
            out@ == underscored(text@).subrange(0, i as int),
        decreases n - i,
    {
        let c = text.get_char(i);
        out.push(
            if c == ' ' {
                '_'
            } else {
                c
            },
        );
        i += 1;
        assert(out@ =~= underscored(text@).subrange(0, i as int));
    }
    assert(out@ =~= underscored(text@));
    out
}

/// Names the sheet of a course exported on a date: `attendance_`, the
/// course name in lower case with underscores for spaces, the date, `.csv`.
pub fn export_filename(course_name: &str, date: &str) -> (name: String)
    ensures
        name@ == sheet_name(course_name@, date@),
{
    let plain = replace_spaces(course_name);
    let lower = lowercase(plain.as_str());
    String::from_str("attendance_").concat(lower.as_str()).concat("_").concat(date).concat(".csv")
}

/// Lays out the sheet of a course: the header, then one row per record in
/// the order given.
pub fn export_rows(records: &Vec<AttendanceRecord>, course_name: &str, course_id: u128) -> (rows:
    Vec<Vec<String>>)
    ensures
        rows.deep_view().len() == records@.len() + 1,
        rows.deep_view()[0] == header_row(),
        forall|i: int|
            0 <= i < records@.len() ==> #[trigger] rows.deep_view()[i + 1] == record_row(
                records@[i].timestamp,
                records@[i].student_name@,
                records@[i].student_id@,
                course_name@,
                course_id,
            ),
{
    let mut rows: Vec<Vec<String>> = Vec::new();
    let mut header: Vec<String> = Vec::new();
    header.push(String::from_str("Timestamp"));
    header.push(String::from_str("Student Name"));
    header.push(String::from_str("Student ID"));
    header.push(String::from_str("Course Name"));
    header.push(String::from_str("Course ID"));
    assert(header.deep_view() =~= header_row());
    rows.push(header);
    let id_text = format_uuid(course_id);
    let mut i: usize = 0;
    assert(rows.deep_view()[0] == header_row());
    while i < records.len()
        invariant
            i <= records@.len(),
            id_text@ == uuid_text(course_id),
            rows@.len() == i + 1,
            rows.deep_view().len() == i + 1,
            rows.deep_view()[0] == header_row(),
            forall|k: int|
                0 <= k < i ==> #[trigger] rows.deep_view()[k + 1] == record_row(
                    records@[k].timestamp,
                    records@[k].student_name@,
                    records@[k].student_id@,
                    course_name@,
                    course_id,
                ),
        decreases records@.len() - i,
    {
        let record = &records[i];
        let ghost before = rows.deep_view();
        let mut row: Vec<String> = Vec::new();
        row.push(
            match format_instant(record.timestamp) {
                Some(text) => text,
                None => String::new(),
            },
        );
        row.push(record.student_name.clone());
        row.push(record.student_id.clone());
        row.push(course_name.to_owned());
        row.push(id_text.clone());
        assert(row.deep_view() =~= record_row(
            record.timestamp,
            record.student_name@,
            record.student_id@,
            course_name@,
            course_id,
        ));
        let ghost added = row.deep_view();
        rows.push(row);
        proof {
            assert(rows.deep_view() =~= before.push(added));
            assert forall|k: int| 0 <= k < i + 1 implies #[trigger] rows.deep_view()[k + 1]
                == record_row(
                records@[k].timestamp,
                records@[k].student_name@,
                records@[k].student_id@,
                course_name@,
                course_id,
            ) by {
                if k < i {
                    assert(rows.deep_view()[k + 1] == before[k + 1]);
                }
            }
        }
        i += 1;
    }
    rows
}

/// The sentence kept for the log when the sheet cannot be written.
pub open spec fn csv_failed_message() -> Seq<char> {
    "CSV writer refused the rows"@
}

/// Makes the sheets.
pub struct ExportService;

impl ExportService {
    /// A service; it holds nothing.
    pub fn new() -> (service: Self) {
        ExportService
    }

    /// Writes the sheet of a course as CSV: what the `csv` crate makes of
    /// the header and the rows of the records.
    pub fn export_attendance_csv(
        &self,
        records: &Vec<AttendanceRecord>,
        course_name: &str,
        course_id: u128,
    ) -> (r: Result<Vec<u8>, AppError>)
        ensures
            exists|rows: Seq<Seq<Seq<char>>>|
                {
                    &&& rows.len() == records@.len() + 1
                    &&& rows[0] == header_row()
                    &&& forall|i: int|
                        0 <= i < records@.len() ==> #[trigger] rows[i + 1] == record_row(
                            records@[i].timestamp,
                            records@[i].student_name@,
                            records@[i].student_id@,
                            course_name@,
                            course_id,
                        )
                    &&& match #[trigger] csv_bytes(rows) {
                        Some(bytes) => r is Ok && r->Ok_0@ == bytes,
                        None => r is Err && r->Err_0@ == ErrorView::CsvIntoInnerError(
                            csv_failed_message(),
                        ),
                    }
                },
    {
        let rows = export_rows(records, course_name, course_id);
        let r = match write_csv(&rows) {
            Some(bytes) => Ok(bytes),
            None => Err(
                AppError::CsvIntoInnerError(String::from_str("CSV writer refused the rows")),
            ),
        };
        proof {
            let view = rows.deep_view();
            assert(match csv_bytes(view) {
                Some(bytes) => r is Ok && r->Ok_0@ == bytes,
                None => r is Err && r->Err_0@ == ErrorView::CsvIntoInnerError(
                    csv_failed_message(),
                ),
            });
        }
        r
    }
}

} // verus!
