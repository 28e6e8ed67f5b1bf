//! Attendance records and the count of students present.
//!
//! Records are only ever added. The count of a course on a day is the number of
//! distinct student ids among the records of that course whose timestamp falls
//! in that day: a student with two rows is still one student.

use crate::clock::day_index;
use crate::clock::day_of;
use crate::errors::AppError;
use crate::errors::ErrorView;
use crate::text::eq_text;
use vstd::prelude::*;
use vstd::string::*;

verus! {

/// One row: a student marked present for a course at an instant, with the
/// code that was submitted and the address it came from, where that is known.
pub struct AttendanceRecord {
    pub id: i64,
    pub course_id: u128,
    pub student_name: String,
    pub student_id: String,
    pub timestamp: i64,
    pub submitted_code: String,
    pub ip_address: Option<String>,
}

/// A record as plain values.
pub struct RecordView {
    pub id: i64,
    pub course_id: u128,
    pub student_name: Seq<char>,
    pub student_id: Seq<char>,
    pub timestamp: i64,
    pub submitted_code: Seq<char>,
    pub ip_address: Option<Seq<char>>,
}

/// An optional text as plain values.
pub open spec fn text_of(text: Option<String>) -> Option<Seq<char>> {
    match text {
        Some(held) => Some(held@),
        None => None,
    }
}

/// An optional borrowed text as plain values.
pub open spec fn str_of(text: Option<&str>) -> Option<Seq<char>> {
    match text {
        Some(held) => Some(held@),
        None => None,
    }
}

impl View for AttendanceRecord {
    type V = RecordView;

    open spec fn view(&self) -> RecordView {
        RecordView {
            id: self.id,
            course_id: self.course_id,
            student_name: self.student_name@,
            student_id: self.student_id@,
            timestamp: self.timestamp,
            submitted_code: self.submitted_code@,
            ip_address: text_of(self.ip_address),
        }
    }
}

/// The record belongs to the course and its timestamp falls in one of the
/// days from `first` to `last`, both included.
pub open spec fn in_days(record: RecordView, course_id: u128, first: i64, last: i64) -> bool {
    record.course_id == course_id && first <= day_of(record.timestamp) <= last
}

/// The record belongs to the course and its timestamp falls in the day.
pub open spec fn on_day(record: RecordView, course_id: u128, day: i64) -> bool {
    in_days(record, course_id, day, day)
}

/// The student ids that have a record for the course in the days from
/// `first` to `last`.
pub open spec fn students_between(
    records: Seq<RecordView>,
    course_id: u128,
    first: i64,
    last: i64,
) -> Set<Seq<char>> {
    Set::new(
        |student: Seq<char>|
            exists|i: int|
                0 <= i < records.len() && in_days(#[trigger] records[i], course_id, first, last)
                    && records[i].student_id == student,
    )
}

/// The student ids that have a record for the course on the day.
pub open spec fn students_present(records: Seq<RecordView>, course_id: u128, day: i64) -> Set<
    Seq<char>,
> {
    students_between(records, course_id, day, day)
}

/// The number of distinct students present for the course on the day.
pub open spec fn present_count(records: Seq<RecordView>, course_id: u128, day: i64) -> nat {
    students_present(records, course_id, day).len()
}

/// The records of one course, in the order they were made.
pub open spec fn records_of(records: Seq<RecordView>, course_id: u128) -> Seq<RecordView>
    decreases records.len(),
{
    if records.len() == 0 {
        records
    } else if records.last().course_id == course_id {
        records_of(records.drop_last(), course_id).push(records.last())
    } else {
        records_of(records.drop_last(), course_id)
    }
}

/// The number of records of the course whose day lies from `first` to
/// `last`, both included.
pub open spec fn records_between(records: Seq<RecordView>, course_id: u128, first: i64, last: i64) -> nat
    decreases records.len(),
{
    if records.len() == 0 {
        0
    } else if in_days(records.last(), course_id, first, last) {
        records_between(records.drop_last(), course_id, first, last) + 1
    } else {
        records_between(records.drop_last(), course_id, first, last)
    }
}

/// Adding a record adds its student to the courses and days it falls in,
/// and changes no other course or day.
pub proof fn lemma_students_between_push(
    records: Seq<RecordView>,
    added: RecordView,
    course_id: u128,
    first: i64,
    last: i64,
)
    ensures
        students_between(records.push(added), course_id, first, last) == if in_days(
            added,
            course_id,
            first,
            last,
        ) {
            students_between(records, course_id, first, last).insert(added.student_id)
        } else {
            students_between(records, course_id, first, last)
        },
{
    let after = records.push(added);
    let before_set = students_between(records, course_id, first, last);
    let after_set = students_between(after, course_id, first, last);
    let expected = if in_days(added, course_id, first, last) {
        before_set.insert(added.student_id)
    } else {
        before_set
    };
    assert forall|student: Seq<char>| after_set.contains(student) implies expected.contains(
        student,
    ) by {
        let i = choose|i: int|
            0 <= i < after.len() && in_days(#[trigger] after[i], course_id, first, last)
                && after[i].student_id == student;
        if i < records.len() {
            assert(after[i] == records[i]);
        }
    }
    assert forall|student: Seq<char>| expected.contains(student) implies after_set.contains(
        student,
    ) by {
        if before_set.contains(student) {
            let i = choose|i: int|
                0 <= i < records.len() && in_days(#[trigger] records[i], course_id, first, last)
                    && records[i].student_id == student;
            assert(after[i] == records[i]);
        } else {
            assert(after[records.len() as int] == added);
        }
    }
    assert(after_set =~= expected);
}

/// The students of a span of days are finitely many, and no more than
/// there are records.
pub proof fn lemma_students_between_finite(
    records: Seq<RecordView>,
    course_id: u128,
    first: i64,
    last: i64,
)
    ensures
        students_between(records, course_id, first, last).finite(),
        students_between(records, course_id, first, last).len() <= records.len(),
    decreases records.len(),
{
    if records.len() == 0 {
        assert(students_between(records, course_id, first, last) =~= Set::<Seq<char>>::empty());
    } else {
        let front = records.drop_last();
        lemma_students_between_finite(front, course_id, first, last);
        lemma_students_between_push(front, records.last(), course_id, first, last);
        assert(front.push(records.last()) =~= records);
    }
}

/// Adding a record adds its student to the course and day it falls in, and
/// changes no other course or day.
pub proof fn lemma_students_present_push(
    records: Seq<RecordView>,
    added: RecordView,
    course_id: u128,
    day: i64,
)
    ensures
        students_present(records.push(added), course_id, day) == if on_day(added, course_id, day) {
            students_present(records, course_id, day).insert(added.student_id)
        } else {
            students_present(records, course_id, day)
        },
{
    lemma_students_between_push(records, added, course_id, day, day);
}

/// The students present are finitely many, and no more than there are
/// records.
pub proof fn lemma_students_present_finite(records: Seq<RecordView>, course_id: u128, day: i64)
    ensures
        students_present(records, course_id, day).finite(),
        students_present(records, course_id, day).len() <= records.len(),
{
    lemma_students_between_finite(records, course_id, day, day);
}

/// Makes an owned copy of an optional text.
pub fn owned(text: Option<&str>) -> (copy: Option<String>)
    ensures
        text_of(copy) == str_of(text),
{
    match text {
        Some(held) => Some(held.to_owned()),
        None => None,
    }
}

/// The sentence kept for the log when the table cannot take another row.
pub open spec fn table_full_message() -> Seq<char> {
    "Attendance table cannot take another record"@
}

/// The attendance records made so far.
pub struct AttendanceRecords {
    rows: Vec<AttendanceRecord>,
}

impl View for AttendanceRecords {
    type V = Seq<RecordView>;

    /// The records in the order they were made.
    closed spec fn view(&self) -> Seq<RecordView> {
        self.rows@.map_values(|row: AttendanceRecord| row@)
    }
}

impl AttendanceRecords {
    /// Row ids count up from one in the order of insertion.
    pub open spec fn wf(&self) -> bool {
        forall|i: int| 0 <= i < self@.len() ==> (#[trigger] self@[i]).id == i + 1
    }

    /// An empty table.
    pub fn new() -> (table: Self)
        ensures
            table.wf(),
            table@ == Seq::<RecordView>::empty(),
    {
        let table = AttendanceRecords { rows: Vec::new() };
        assert(table@ =~= Seq::<RecordView>::empty());
        table
    }

    /// Number of records held.
    pub fn len(&self) -> (n: usize)
        ensures
            n == self@.len(),
    {
        self.rows.len()
    }

    /// Adds one record for the student, stamped with the instant `now`, and
    /// hands back a copy of the row. Fails, leaving the table as it was, only
    /// when the next row id cannot be represented.
    pub fn record_attendance(
        &mut self,
        course_id: u128,
        student_name: &str,
        student_id: &str,
        submitted_code: &str,
        ip_address: Option<&str>,
        now: i64,
    ) -> (r: Result<AttendanceRecord, AppError>)
        requires
            old(self).wf(),
        ensures
            final(self).wf(),
            old(self)@.len() < i64::MAX ==> r is Ok && r->Ok_0@ == (RecordView {
                id: (old(self)@.len() + 1) as i64,
                course_id,
                student_name: student_name@,
                student_id: student_id@,
                timestamp: now,
                submitted_code: submitted_code@,
                ip_address: str_of(ip_address),
            }) && final(self)@ == old(self)@.push(r->Ok_0@),
            old(self)@.len() >= i64::MAX ==> r is Err && r->Err_0@ == ErrorView::InternalError(
                table_full_message(),
            ) && final(self)@ == old(self)@,
    {
        let n = self.rows.len();
        if n as u64 >= i64::MAX as u64 {
            return Err(
                AppError::InternalError(
                    String::from_str("Attendance table cannot take another record"),
                ),
            );
        }
        let id: i64 = (n as u64 + 1) as i64;
        let ghost before = self@;
        let row = AttendanceRecord {
            id,
            course_id,
            student_name: student_name.to_owned(),
            student_id: student_id.to_owned(),
            timestamp: now,
            submitted_code: submitted_code.to_owned(),
            ip_address: owned(ip_address),
        };
        let copy = AttendanceRecord {
            id,
            course_id,
            student_name: student_name.to_owned(),
            student_id: student_id.to_owned(),
            timestamp: now,
            submitted_code: submitted_code.to_owned(),
            ip_address: owned(ip_address),
        };
        self.rows.push(row);
        assert(self@ =~= before.push(copy@));
        Ok(copy)
    }

    /// Lists the records of a course, in the order they were made.
    pub fn fetch_attendance_for_course(&self, course_id: u128) -> (found: Vec<AttendanceRecord>)
        ensures
            found@.map_values(|row: AttendanceRecord| row@) == records_of(self@, course_id),
    {
        let mut found: Vec<AttendanceRecord> = Vec::new();
        let mut i: usize = 0;
        proof {
            assert(self@.subrange(0, 0) =~= Seq::<RecordView>::empty());
            assert(found@.map_values(|row: AttendanceRecord| row@) =~= Seq::<RecordView>::empty());
        }
        while i < self.rows.len()
            invariant
                i <= self.rows@.len(),
                self@.len() == self.rows@.len(),
                found@.map_values(|row: AttendanceRecord| row@) == records_of(
                    self@.subrange(0, i as int),
                    course_id,
                ),
            decreases self.rows@.len() - i,
        {
            let row = &self.rows[i];
            let ghost listed = found@.map_values(|row: AttendanceRecord| row@);
            proof {
                assert(self@.subrange(0, i + 1).drop_last() =~= self@.subrange(0, i as int));
                assert(self@.subrange(0, i + 1).last() == self@[i as int]);
            }
            if row.course_id == course_id {
                let copy = AttendanceRecord {
                    id: row.id,
                    course_id: row.course_id,
                    student_name: row.student_name.clone(),
                    student_id: row.student_id.clone(),
                    timestamp: row.timestamp,
                    submitted_code: row.submitted_code.clone(),
                    ip_address: match &row.ip_address {
                        Some(held) => Some(held.clone()),
                        None => None,
                    },
                };
                let ghost view = copy@;
                found.push(copy);
                assert(found@.map_values(|row: AttendanceRecord| row@) =~= listed.push(view));
            }
            i += 1;
        }
        proof {
            assert(self@.subrange(0, i as int) =~= self@);
        }
        found
    }

    /// Tells whether the student already has a record for the course on the
    /// day.
    pub fn check_student_attendance_today(&self, course_id: u128, student_id: &str, today: i64) -> (seen:
        bool)
        ensures
            seen == students_present(self@, course_id, today).contains(student_id@),
    {
        let mut i: usize = 0;
        while i < self.rows.len()
            invariant
                i <= self.rows@.len(),
                forall|j: int|
                    0 <= j < i ==> !(on_day(#[trigger] self@[j], course_id, today)
                        && self@[j].student_id == student_id@),
            decreases self.rows@.len() - i,
        {
            let row = &self.rows[i];
            if row.course_id == course_id && day_index(row.timestamp) == today && eq_text(
                row.student_id.as_str(),
                student_id,
            ) {
                assert(on_day(self@[i as int], course_id, today));
                return true;
            }
            i += 1;
        }
        false
    }

    /// Counts the distinct students present for the course on the day.
    pub fn fetch_todays_attendance_count(&self, course_id: u128, today: i64) -> (count: usize)
        ensures
            count == present_count(self@, course_id, today),
    {
        self.count_students_between(course_id, today, today)
    }

    /// Counts the records of the course whose day lies from `first` to
    /// `last`, both included.
    pub fn count_records_between(&self, course_id: u128, first: i64, last: i64) -> (count: usize)
        ensures
            count == records_between(self@, course_id, first, last),
    {
        let mut count: usize = 0;
        let mut i: usize = 0;
        proof {
            assert(self@.subrange(0, 0) =~= Seq::<RecordView>::empty());
        }
        while i < self.rows.len()
            invariant
                i <= self.rows@.len(),
                self@.len() == self.rows@.len(),
                count <= i,
                count == records_between(self@.subrange(0, i as int), course_id, first, last),
            decreases self.rows@.len() - i,
        {
            let row = &self.rows[i];
            proof {
                assert(self@.subrange(0, i + 1).drop_last() =~= self@.subrange(0, i as int));
                assert(self@.subrange(0, i + 1).last() == self@[i as int]);
            }
            let day = day_index(row.timestamp);
            if row.course_id == course_id && first <= day && day <= last {
                count += 1;
            }
            i += 1;
        }
        proof {
            assert(self@.subrange(0, i as int) =~= self@);
        }
        count
    }

    /// Counts the distinct students with a record for the course in the days
    /// from `first` to `last`, both included.
    pub fn count_students_between(&self, course_id: u128, first: i64, last: i64) -> (count: usize)
        ensures
            count == students_between(self@, course_id, first, last).len(),
    {
        let mut firsts: Vec<usize> = Vec::new();
        let ghost mut ids: Seq<Seq<char>> = Seq::empty();
        let mut i: usize = 0;
        proof {
            assert(self@.subrange(0, 0) =~= Seq::<RecordView>::empty());
            assert(students_between(self@.subrange(0, 0), course_id, first, last) =~= Set::<
                Seq<char>,
            >::empty());
            assert(ids.to_set() =~= Set::<Seq<char>>::empty());
        }
        while i < self.rows.len()
            invariant
                i <= self.rows@.len(),
                self@.len() == self.rows@.len(),
                ids.len() == firsts@.len(),
                firsts@.len() <= i,
                forall|k: int|
                    0 <= k < firsts@.len() ==> (#[trigger] firsts@[k]) < i && ids[k]
                        == self@[firsts@[k] as int].student_id,
                ids.no_duplicates(),
                ids.to_set() == students_between(
                    self@.subrange(0, i as int),
                    course_id,
                    first,
                    last,
                ),
            decreases self.rows@.len() - i,
        {
            let row = &self.rows[i];
            let ghost prefix = self@.subrange(0, i as int);
            proof {
                assert(self@.subrange(0, i + 1) =~= prefix.push(self@[i as int]));
                lemma_students_between_push(prefix, self@[i as int], course_id, first, last);
            }
            let day = day_index(row.timestamp);
            if row.course_id == course_id && first <= day && day <= last {
                let mut known = false;
                let mut k: usize = 0;
                while k < firsts.len()
                    invariant
                        k <= firsts@.len(),
                        ids.len() == firsts@.len(),
                        i < self.rows@.len(),
                        self@.len() == self.rows@.len(),
                        row == &self.rows@[i as int],
                        forall|m: int|
                            0 <= m < firsts@.len() ==> (#[trigger] firsts@[m]) < i && ids[m]
                                == self@[firsts@[m] as int].student_id,
                        !known ==> forall|m: int| 0 <= m < k ==> ids[m] != row.student_id@,
                        known ==> ids.contains(row.student_id@),
                    decreases firsts@.len() - k,
                {
                    let first = &self.rows[firsts[k]];
                    if eq_text(first.student_id.as_str(), row.student_id.as_str()) {
                        assert(ids[k as int] == row.student_id@);
                        known = true;
                    }
                    k += 1;
                }
                if !known {
                    proof {
                        assert(!ids.contains(row.student_id@));
                        ids.lemma_push_to_set_commute(row.student_id@);
                        let grown = ids.push(row.student_id@);
                        assert forall|a: int, b: int|
                            0 <= a < grown.len() && 0 <= b < grown.len() && a
                                != b implies grown[a] != grown[b] by {
                            if a < ids.len() && b < ids.len() {
                            } else if a < ids.len() {
                                assert(ids.contains(ids[a]));
                            } else {
                                assert(ids.contains(ids[b]));
                            }
                        }
                        ids = grown;
                    }
                    firsts.push(i);
                } else {
                    proof {
                        assert(ids.to_set().insert(row.student_id@) =~= ids.to_set());
                    }
                }
            }
            i += 1;
        }
        proof {
            assert(self@.subrange(0, i as int) =~= self@);
            ids.unique_seq_to_set();
        }
        firsts.len()
    }
}

} // verus!
