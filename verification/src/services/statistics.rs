//! Figures drawn from the attendance records.
//!
//! A week runs from Monday to Sunday, in UTC. Days are counted from the Unix
//! epoch, which fell on a Thursday.

use crate::clock::day_index;
use crate::clock::day_of;
use crate::db::attendance::records_between;
use crate::db::attendance::students_between;
use crate::db::attendance::AttendanceRecords;
use crate::db::attendance::RecordView;
use vstd::prelude::*;

verus! {

/// The place of a day in its week: 0 for Monday, 6 for Sunday.
pub open spec fn weekday_of(day: int) -> int {
    (day + 3) % 7
}

/// The Monday of the week that holds the day.
pub open spec fn monday_of(day: int) -> int {
    day - weekday_of(day)
}

/// Computes the place of a day in its week: 0 for Monday, 6 for Sunday.
pub fn weekday_from_monday(day: i64) -> (weekday: u8)
    ensures
        weekday == weekday_of(day as int),
        weekday < 7,
{
    if day >= 0 {
        let r: i64 = day % 7;
        ((r + 3) % 7) as u8
    } else {
        let back: i64 = -(day + 1);
        let r: i64 = back % 7;
        assert(day as int == -(back as int) - 1);
        assert((day + 3) % 7 == (9 - r) % 7) by {
            assert(back == 7 * (back / 7) + r);
            assert(day + 3 == 7 * (-(back / 7) - 1) + (9 - r));
            assert((7 * (-(back / 7) - 1) + (9 - r)) % 7 == (9 - r) % 7) by (nonlinear_arith)
                requires
                    0 <= r < 7,
            ;
        }
        ((9 - r) % 7) as u8
    }
}

/// The figures of one week of one course.
pub struct WeeklyReport {
    /// The Monday the week starts on, as a day since the epoch.
    pub week_start: i64,
    /// The Monday after, as a day since the epoch.
    pub week_end: i64,
    /// Records made in the week.
    pub total_records: usize,
    /// Distinct students with a record in the week.
    pub unique_students: usize,
    /// Records per day, Monday first.
    pub daily_counts: Vec<usize>,
}

/// Draws up figures.
pub struct StatisticsService;

impl StatisticsService {
    /// A service; it holds nothing.
    pub fn new() -> (service: Self) {
        StatisticsService
    }

    /// Draws up the figures of the week that holds the instant `now` for a
    /// course.
    pub fn generate_weekly_report(&self, records: &AttendanceRecords, course_id: u128, now: i64) -> (report:
        WeeklyReport)
        ensures
            weekly_figures(report, records@, course_id, now),
    {
        generate_weekly_report(records, course_id, now)
    }
}

/// The report holds the figures of the week of `now` for the course: the
/// records and the distinct students from its Monday to its Sunday, and the
/// records of each of its days.
pub open spec fn weekly_figures(
    report: WeeklyReport,
    records: Seq<RecordView>,
    course_id: u128,
    now: i64,
) -> bool {
    &&& report.week_start == monday_of(day_of(now))
    &&& report.week_end == report.week_start + 7
    &&& report.total_records == records_between(
        records,
        course_id,
        report.week_start,
        (report.week_start + 6) as i64,
    )
    &&& report.unique_students == students_between(
        records,
        course_id,
        report.week_start,
        (report.week_start + 6) as i64,
    ).len()
    &&& report.daily_counts@.len() == 7
    &&& forall|d: int|
        0 <= d < 7 ==> #[trigger] report.daily_counts@[d] == records_between(
            records,
            course_id,
            (report.week_start + d) as i64,
            (report.week_start + d) as i64,
        )
}

/// Draws up the figures of the week that holds the instant `now` for a
/// course.
pub fn generate_weekly_report(records: &AttendanceRecords, course_id: u128, now: i64) -> (report:
    WeeklyReport)
    ensures
        weekly_figures(report, records@, course_id, now),
{
    let today = day_index(now);
    let weekday = weekday_from_monday(today);
    let week_start: i64 = today - weekday as i64;
    let mut daily_counts: Vec<usize> = Vec::new();
    let mut d: u8 = 0;
    while d < 7
        invariant
            d <= 7,
            -106_751_991_167_301 <= week_start <= 106_751_991_167_301,
            daily_counts@.len() == d,
            forall|k: int|
                0 <= k < d ==> #[trigger] daily_counts@[k] == records_between(
                    records@,
                    course_id,
                    (week_start + k) as i64,
                    (week_start + k) as i64,
                ),
        decreases 7 - d,
    {
        let day = week_start + d as i64;
        daily_counts.push(records.count_records_between(course_id, day, day));
        d += 1;
    }
    WeeklyReport {
        week_start,
        week_end: week_start + 7,
        total_records: records.count_records_between(course_id, week_start, week_start + 6),
        unique_students: records.count_students_between(course_id, week_start, week_start + 6),
        daily_counts,
    }
}

} // verus!
