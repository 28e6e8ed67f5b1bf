//! The steps that bring a database up to the current schema.
//!
//! Steps are numbered from one and applied in order. A database at version
//! `v` needs exactly the steps numbered above `v`.

use crate::db::schema::SCHEMA;
use vstd::prelude::*;

verus! {

/// The table that keeps the schema version.
pub const MIGRATIONS_TABLE: &'static str = "schema_migrations";

/// The number of the newest step.
pub const LATEST_VERSION: i64 = 4;

/// Adds indexes for look-ups by course, student and time.
pub const ADD_ATTENDANCE_INDEXES: &'static str = r#"
            CREATE INDEX IF NOT EXISTS idx_attendance_course_id ON attendance(course_id);
            CREATE INDEX IF NOT EXISTS idx_attendance_student_id ON attendance(student_id);
            CREATE INDEX IF NOT EXISTS idx_attendance_timestamp ON attendance(timestamp);
        "#;

/// Adds attendance sessions.
pub const ADD_SESSIONS: &'static str = r#"
            CREATE TABLE IF NOT EXISTS sessions (
                id TEXT PRIMARY KEY,
                course_id TEXT NOT NULL,
                name TEXT NOT NULL,
                status TEXT NOT NULL DEFAULT 'active',
                start_time TIMESTAMP NOT NULL DEFAULT CURRENT_TIMESTAMP,
                end_time TIMESTAMP,
                FOREIGN KEY (course_id) REFERENCES courses (id)
            );

            -- Update attendance table to reference sessions
            ALTER TABLE attendance ADD COLUMN session_id TEXT;
        "#;

/// Adds the settings for location restrictions.
pub const ADD_GEO_SETTINGS: &'static str = r#"
            CREATE TABLE IF NOT EXISTS geo_settings (
                course_id TEXT PRIMARY KEY,
                enabled BOOLEAN NOT NULL DEFAULT 0,
                latitude REAL,
                longitude REAL,
                radius INTEGER DEFAULT 100,
                FOREIGN KEY (course_id) REFERENCES courses (id)
            );
        "#;

/// The statements of step `version`.
pub open spec fn migration_text(version: int) -> Seq<char> {
    if version == 1 {
        SCHEMA@
    } else if version == 2 {
        ADD_ATTENDANCE_INDEXES@
    } else if version == 3 {
        ADD_SESSIONS@
    } else {
        ADD_GEO_SETTINGS@
    }
}

/// All steps, each with its number, in the order they are applied.
pub fn get_migrations() -> (steps: Vec<(i64, &'static str)>)
    ensures
        steps@.len() == LATEST_VERSION,
        forall|i: int|
            0 <= i < steps@.len() ==> (#[trigger] steps@[i]).0 == i + 1 && steps@[i].1@
                == migration_text(i + 1),
{
    let mut steps: Vec<(i64, &'static str)> = Vec::new();
    steps.push((1, SCHEMA));
    steps.push((2, ADD_ATTENDANCE_INDEXES));
    steps.push((3, ADD_SESSIONS));
    steps.push((4, ADD_GEO_SETTINGS));
    steps
}

/// The steps a database at `current_version` still needs: those numbered
/// above it, in order. A database at the latest version, or beyond it, needs
/// none.
pub fn pending_migrations(current_version: i64) -> (steps: Vec<(i64, &'static str)>)
    ensures
        steps@.len() == if current_version >= LATEST_VERSION {
            0
        } else if current_version < 0 {
            LATEST_VERSION as int
        } else {
            LATEST_VERSION - current_version
        },
        forall|i: int|
            0 <= i < steps@.len() ==> (#[trigger] steps@[i]).0 == LATEST_VERSION - steps@.len()
                + i + 1 && steps@[i].1@ == migration_text(steps@[i].0 as int),
{
    let all = get_migrations();
    let mut steps: Vec<(i64, &'static str)> = Vec::new();
    let mut i: usize = 0;
    while i < all.len()
        invariant
            i <= all@.len(),
            all@.len() == LATEST_VERSION,
            forall|k: int|
                0 <= k < all@.len() ==> (#[trigger] all@[k]).0 == k + 1 && all@[k].1@
                    == migration_text(k + 1),
            steps@.len() == if current_version >= i {
                0
            } else if current_version < 0 {
                i as int
            } else {
                i - current_version
            },
            forall|k: int|
                0 <= k < steps@.len() ==> (#[trigger] steps@[k]).0 == i - steps@.len() + k + 1
                    && steps@[k].1@ == migration_text(steps@[k].0 as int),
        decreases all@.len() - i,
    {
        let step = all[i];
        if step.0 > current_version {
            steps.push(step);
        }
        i += 1;
    }
    steps
}

} // verus!
