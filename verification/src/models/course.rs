//! What an instructor sends to make or change a course.

use vstd::prelude::*;

verus! {

/// The body of a request that makes a course.
pub struct CreateCoursePayload {
    pub name: String,
    pub section_number: String,
    pub sections: Vec<String>,
    pub professor_name: String,
    pub office_hours: String,
    pub news: String,
    pub total_students: i64,
    pub logo_path: String,
}

/// The body of a request that changes a course. Every field is replaced.
pub struct UpdateCoursePayload {
    pub name: String,
    pub section_number: String,
    pub sections: Vec<String>,
    pub professor_name: String,
    pub office_hours: String,
    pub news: String,
    pub total_students: i64,
    pub logo_path: String,
}

/// A course as the catalogue holds it. Instants are milliseconds since the
/// Unix epoch.
pub struct Course {
    pub id: u128,
    pub name: String,
    pub section_number: String,
    pub sections: Vec<String>,
    pub professor_name: String,
    pub office_hours: String,
    pub news: String,
    pub total_students: i64,
    pub logo_path: String,
    pub confirmation_code: Option<String>,
    pub confirmation_code_expires_at: Option<i64>,
    pub created_at: i64,
    pub updated_at: i64,
}

impl Course {
    /// The body that changes nothing of this course but its logo.
    pub fn with_logo(&self, logo_path: &str) -> (payload: UpdateCoursePayload)
        ensures
            payload.name@ == self.name@,
            payload.section_number@ == self.section_number@,
            payload.sections@.len() == self.sections@.len(),
            forall|i: int|
                0 <= i < self.sections@.len() ==> (#[trigger] payload.sections@[i])@
                    == self.sections@[i]@,
            payload.professor_name@ == self.professor_name@,
            payload.office_hours@ == self.office_hours@,
            payload.news@ == self.news@,
            payload.total_students == self.total_students,
            payload.logo_path@ == logo_path@,
    {
        let mut sections: Vec<String> = Vec::new();
        let mut i: usize = 0;
        while i < self.sections.len()
            invariant
                i <= self.sections@.len(),
                sections@.len() == i,
                forall|j: int| 0 <= j < i ==> (#[trigger] sections@[j])@ == self.sections@[j]@,
            decreases self.sections@.len() - i,
        {
            sections.push(self.sections[i].clone());
            i += 1;
        }
        UpdateCoursePayload {
            name: self.name.clone(),
            section_number: self.section_number.clone(),
            sections,
            professor_name: self.professor_name.clone(),
            office_hours: self.office_hours.clone(),
            news: self.news.clone(),
            total_students: self.total_students,
            logo_path: logo_path.to_owned(),
        }
    }
}

/// What `serde_json::to_string` writes for a list of texts: a JSON array
/// of strings.
pub uninterp spec fn json_array_text(items: Seq<Seq<char>>) -> Seq<char>;

/// The list of texts that `serde_json::from_str` reads from a JSON array
/// of strings; empty where the text is anything else.
pub uninterp spec fn parsed_string_array(text: Seq<char>) -> Seq<Seq<char>>;

/// Writes the sections of a course as a JSON array with
/// `serde_json::to_string`. Writing a list of strings cannot fail.
#[verifier::external_body]
pub fn vec_string_to_json(sections: &Vec<String>) -> (json: String)
    ensures
        json@ == json_array_text(sections.deep_view()),
{
    serde_json::to_string(sections).unwrap_or_default()
}

/// Reads the sections of a course from a JSON array with
/// `serde_json::from_str`; text that is no array of strings yields no
/// sections.
#[verifier::external_body]
pub fn json_to_vec_string(json: &str) -> (sections: Vec<String>)
    ensures
        sections.deep_view() == parsed_string_array(json@),
{
    serde_json::from_str::<Vec<String>>(json).unwrap_or_default()
}

/// A course as it is shown to clients: the identifier as text, and no
/// confirmation code.
pub struct CourseApiResponse {
    pub id: String,
    pub name: String,
    pub section_number: String,
    pub sections: Vec<String>,
    pub professor_name: String,
    pub office_hours: String,
    pub news: String,
    pub total_students: i64,
    pub logo_path: String,
    pub created_at: i64,
    pub updated_at: i64,
}

impl CourseApiResponse {
    /// Shows a course to clients.
    pub fn from_course(course: Course) -> (shown: CourseApiResponse)
        ensures
            shown.id@ == crate::ids::uuid_text(course.id),
            shown.name@ == course.name@,
            shown.section_number@ == course.section_number@,
            shown.sections == course.sections,
            shown.professor_name@ == course.professor_name@,
            shown.office_hours@ == course.office_hours@,
            shown.news@ == course.news@,
            shown.total_students == course.total_students,
            shown.logo_path@ == course.logo_path@,
            shown.created_at == course.created_at,
            shown.updated_at == course.updated_at,
    {
        CourseApiResponse {
            id: crate::ids::format_uuid(course.id),
            name: course.name,
            section_number: course.section_number,
            sections: course.sections,
            professor_name: course.professor_name,
            office_hours: course.office_hours,
            news: course.news,
            total_students: course.total_students,
            logo_path: course.logo_path,
            created_at: course.created_at,
            updated_at: course.updated_at,
        }
    }
}

} // verus!
