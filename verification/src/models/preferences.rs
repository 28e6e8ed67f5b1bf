//! Application preferences: which course the host is showing.

use vstd::prelude::*;

verus! {

/// One stored preference.
pub struct Preference {
    pub key: String,
    pub value: String,
}

/// The body of a request that sets the current course by identifier.
pub struct SetCurrentCoursePayload {
    pub current_course_id: String,
}

/// The preferences as they are shown.
pub struct PreferencesResponse {
    pub current_course_id: Option<String>,
}

/// The body of a request that switches the current course by name.
pub struct SwitchCoursePayload {
    pub course_name: String,
}

/// The key under which the current course is stored.
pub open spec fn current_course_key() -> Seq<char> {
    "current_course_id"@
}

impl Preference {
    /// The preference that names `value` as the current course.
    pub fn current_course(value: String) -> (preference: Preference)
        ensures
            preference.key@ == current_course_key(),
            preference.value@ == value@,
    {
        Preference { key: "current_course_id".to_owned(), value }
    }

    /// The stored text of the current course, if this preference holds one.
    /// An empty value means that no course is current.
    pub fn current_course_text(&self) -> (text: Option<&str>)
        ensures
            match text {
                Some(found) => self.key@ == current_course_key() && self.value@.len() > 0
                    && found@ == self.value@,
                None => self.key@ != current_course_key() || self.value@.len() == 0,
            },
    {
        if crate::text::eq_text(self.key.as_str(), "current_course_id") && self.value.as_str().unicode_len()
            > 0 {
            Some(self.value.as_str())
        } else {
            None
        }
    }
}

} // verus!
