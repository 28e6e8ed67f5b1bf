//! Which course is the current one, as a stored preference.

use crate::errors::AppError;
use crate::errors::ErrorView;
use crate::ids::format_uuid;
use crate::ids::parse_uuid;
use crate::ids::parsed_uuid;
use crate::ids::uuid_text;
use crate::models::preferences::current_course_key;
use crate::models::preferences::Preference;
use vstd::prelude::*;
use vstd::string::*;

verus! {

/// The sentence kept for the log when the stored value is not a UUID.
pub open spec fn invalid_stored_id_message() -> Seq<char> {
    "Invalid UUID stored for current_course_id"@
}

/// The preference that makes a course the current one.
pub fn set_current_course_id(course_id: u128) -> (preference: Preference)
    ensures
        preference.key@ == current_course_key(),
        preference.value@ == uuid_text(course_id),
{
    Preference::current_course(format_uuid(course_id))
}

/// Reads the current course from the stored value, if there is one. No
/// stored value, or an empty one, means that no course is current. A value
/// that is not a UUID is an internal error.
pub fn get_current_course_id(stored: Option<&str>) -> (r: Result<Option<u128>, AppError>)
    ensures
        match stored {
            Some(value) => if value@.len() == 0 {
                r is Ok && r->Ok_0 is None
            } else {
                match parsed_uuid(value@) {
                    Some(id) => r is Ok && r->Ok_0 == Some(id),
                    None => r is Err && r->Err_0@ == ErrorView::InternalError(
                        invalid_stored_id_message(),
                    ),
                }
            },
            None => r is Ok && r->Ok_0 is None,
        },
{
    match stored {
        Some(value) => {
            if value.unicode_len() == 0 {
                Ok(None)
            } else {
                match parse_uuid(value) {
                    Some(id) => Ok(Some(id)),
                    None => Err(
                        AppError::InternalError(
                            String::from_str("Invalid UUID stored for current_course_id"),
                        ),
                    ),
                }
            }
        },
        None => Ok(None),
    }
}

/// The course to make current when `deleted` is about to be deleted: the
/// first of the courses that is another one; none where there is no other.
pub fn next_current_course(courses: &Vec<u128>, deleted: u128) -> (next: Option<u128>)
    ensures
        match next {
            Some(id) => id != deleted && exists|i: int|
                0 <= i < courses@.len() && courses@[i] == id && forall|j: int|
                    0 <= j < i ==> courses@[j] == deleted,
            None => forall|j: int| 0 <= j < courses@.len() ==> courses@[j] == deleted,
        },
{
    let mut i: usize = 0;
    while i < courses.len()
        invariant
            i <= courses@.len(),
            forall|j: int| 0 <= j < i ==> courses@[j] == deleted,
        decreases courses@.len() - i,
    {
        if courses[i] != deleted {
            return Some(courses[i]);
        }
        i += 1;
    }
    None
}

/// What has to be done at start-up so that a current course exists.
#[derive(Clone, Copy, Debug, PartialEq, Eq, Structural)]
pub enum SeedAction {
    /// There is no course: make the default course and make it current.
    SeedDefault,
    /// The current course is missing or gone: make this course current.
    MakeCurrent(u128),
    /// The current course exists: nothing to do.
    Keep,
}

/// What has to be done at start-up, given the courses that exist and the
/// current course as stored.
pub open spec fn seed_action(courses: Seq<u128>, current: Option<u128>) -> SeedAction {
    if courses.len() == 0 {
        SeedAction::SeedDefault
    } else if current is Some && courses.contains(current->Some_0) {
        SeedAction::Keep
    } else {
        SeedAction::MakeCurrent(courses[0])
    }
}

/// Decides what has to be done at start-up so that a current course
/// exists.
pub fn plan_seed(courses: &Vec<u128>, current: Option<u128>) -> (action: SeedAction)
    ensures
        action == seed_action(courses@, current),
{
    if courses.len() == 0 {
        return SeedAction::SeedDefault;
    }
    match current {
        Some(id) => {
            let mut i: usize = 0;
            while i < courses.len()
                invariant
                    courses@.len() > 0,
                    current == Some(id),
                    i <= courses@.len(),
                    forall|j: int| 0 <= j < i ==> courses@[j] != id,
                decreases courses@.len() - i,
            {
                if courses[i] == id {
                    assert(courses@.contains(id));
                    return SeedAction::Keep;
                }
                i += 1;
            }
            assert(!courses@.contains(id));
            SeedAction::MakeCurrent(courses[0])
        },
        None => SeedAction::MakeCurrent(courses[0]),
    }
}

} // verus!
