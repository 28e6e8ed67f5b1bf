//! The tables the attendance rules read and write, held in memory.
//!
//! Each table keeps the uniqueness that the rules lean on: one row per
//! course, one row per device, course and day. What is read after a write
//! reflects that write.

pub mod attendance;
pub mod courses;
pub mod device_submissions;
pub mod migrations;
pub mod preferences;
pub mod schema;

use crate::db::attendance::AttendanceRecords;
use crate::db::attendance::RecordView;
use crate::db::courses::Courses;
use crate::db::device_submissions::DeviceClaim;
use crate::db::device_submissions::DeviceSubmissions;
use vstd::prelude::*;

verus! {

/// The three tables together.
pub struct Database {
    pub courses: Courses,
    pub devices: DeviceSubmissions,
    pub attendance: AttendanceRecords,
}

impl Database {
    /// Every table is well formed.
    pub open spec fn wf(&self) -> bool {
        &&& self.courses.wf()
        &&& self.devices.wf()
        &&& self.attendance.wf()
    }

    /// A database without courses, claims or records.
    pub fn new() -> (db: Self)
        ensures
            db.wf(),
            db.courses.ids() == Seq::<u128>::empty(),
            forall|course_id: u128| db.courses.details(course_id) is UnknownCourse,
            db.devices@ == Set::<DeviceClaim>::empty(),
            db.attendance@ == Seq::<RecordView>::empty(),
    {
        Database {
            courses: Courses::new(),
            devices: DeviceSubmissions::new(),
            attendance: AttendanceRecords::new(),
        }
    }
}

} // verus!
