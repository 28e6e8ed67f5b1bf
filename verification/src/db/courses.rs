//! The courses that exist and the current code of each.
//!
//! A course owns at most one code. Storing a code overwrites the one before
//! it: from that moment the earlier code is gone. Storing a code for a course
//! that does not exist changes nothing.

use crate::codes::ActiveCode;
use crate::codes::ActiveCodeView;
use crate::codes::CodeDetails;
use crate::codes::CodeDetailsView;
use vstd::prelude::*;
use vstd::string::*;

verus! {

/// One row: a course and its code, if one was ever made.
pub struct CourseRow {
    pub id: u128,
    pub active: Option<ActiveCode>,
}

impl CourseRow {
    /// What the row says of its course's code.
    pub open spec fn details(&self) -> CodeDetailsView {
        match self.active {
            Some(active) => CodeDetailsView::Active(active@),
            None => CodeDetailsView::NeverGenerated,
        }
    }
}

/// What a course holds once `code` has been stored for it: the new code in
/// place of any other, or still nothing where the course does not exist.
pub open spec fn stored(held: CodeDetailsView, code: ActiveCodeView) -> CodeDetailsView {
    if held is UnknownCourse {
        CodeDetailsView::UnknownCourse
    } else {
        CodeDetailsView::Active(code)
    }
}

/// The courses and their codes.
pub struct Courses {
    rows: Vec<CourseRow>,
}

impl Courses {
    /// The identifiers of the courses, in the order they were added.
    pub closed spec fn ids(&self) -> Seq<u128> {
        self.rows@.map_values(|row: CourseRow| row.id)
    }

    /// What the table knows of the code of `course_id`.
    pub closed spec fn details(&self, course_id: u128) -> CodeDetailsView {
        if exists|i: int| 0 <= i < self.rows@.len() && (#[trigger] self.rows@[i]).id == course_id {
            let i = choose|i: int|
                0 <= i < self.rows@.len() && (#[trigger] self.rows@[i]).id == course_id;
            self.rows@[i].details()
        } else {
            CodeDetailsView::UnknownCourse
        }
    }

    /// No course is held twice.
    pub closed spec fn wf(&self) -> bool {
        self.ids().no_duplicates()
    }

    /// A course is unknown exactly when its identifier is not listed, and no
    /// identifier is listed twice.
    pub proof fn lemma_known(&self, course_id: u128)
        ensures
            self.wf() ==> self.ids().no_duplicates(),
            self.ids().contains(course_id) <==> !(self.details(course_id) is UnknownCourse),
    {
        if self.ids().contains(course_id) {
            let i = choose|i: int| 0 <= i < self.ids().len() && self.ids()[i] == course_id;
            assert(self.rows@[i].id == course_id);
        } else {
            if exists|i: int|
                0 <= i < self.rows@.len() && (#[trigger] self.rows@[i]).id == course_id {
                let i = choose|i: int|
                    0 <= i < self.rows@.len() && (#[trigger] self.rows@[i]).id == course_id;
                assert(self.ids()[i] == course_id);
            }
        }
    }

    proof fn lemma_details_at(&self, i: int)
        requires
            self.wf(),
            0 <= i < self.rows@.len(),
        ensures
            self.details(self.rows@[i].id) == self.rows@[i].details(),
    {
        let course_id = self.rows@[i].id;
        let j = choose|j: int|
            0 <= j < self.rows@.len() && (#[trigger] self.rows@[j]).id == course_id;
        assert(self.ids()[i] == self.ids()[j]);
    }

    /// An empty table.
    pub fn new() -> (table: Self)
        ensures
            table.wf(),
            table.ids() == Seq::<u128>::empty(),
            forall|course_id: u128| table.details(course_id) is UnknownCourse,
    {
        let table = Courses { rows: Vec::new() };
        assert(table.ids() =~= Seq::<u128>::empty());
        table
    }

    fn find(&self, course_id: u128) -> (at: Option<usize>)
        requires
            self.wf(),
        ensures
            match at {
                Some(i) => i < self.rows@.len() && self.rows@[i as int].id == course_id
                    && self.ids().contains(course_id) && self.details(course_id)
                    == self.rows@[i as int].details(),
                None => !self.ids().contains(course_id) && self.details(course_id)
                    is UnknownCourse,
            },
    {
        let mut i: usize = 0;
        while i < self.rows.len()
            invariant
                self.wf(),
                i <= self.rows@.len(),
                forall|j: int| 0 <= j < i ==> (#[trigger] self.rows@[j]).id != course_id,
            decreases self.rows@.len() - i,
        {
            if self.rows[i].id == course_id {
                proof {
                    self.lemma_details_at(i as int);
                    assert(self.ids()[i as int] == course_id);
                }
                return Some(i);
            }
            i += 1;
        }
        proof {
            if self.ids().contains(course_id) {
                let j = choose|j: int| 0 <= j < self.ids().len() && self.ids()[j] == course_id;
                assert(self.rows@[j].id == course_id);
            }
        }
        None
    }

    /// Adds a course without a code. A course that is already there is left
    /// as it is; the result tells whether the course was added.
    pub fn add_course(&mut self, course_id: u128) -> (added: bool)
        requires
            old(self).wf(),
        ensures
            final(self).wf(),
            added == !old(self).ids().contains(course_id),
            final(self).ids() == if added {
                old(self).ids().push(course_id)
            } else {
                old(self).ids()
            },
            final(self).details(course_id) == if added {
                CodeDetailsView::NeverGenerated
            } else {
                old(self).details(course_id)
            },
            forall|other: u128|
                other != course_id ==> final(self).details(other) == old(self).details(other),
    {
        if self.find(course_id).is_some() {
            return false;
        }
        let ghost before = *self;
        self.rows.push(CourseRow { id: course_id, active: None });
        proof {
            let n = before.rows@.len() as int;
            assert(self.ids() =~= before.ids().push(course_id));
            assert forall|a: int, b: int|
                0 <= a < self.ids().len() && 0 <= b < self.ids().len() && a
                    != b implies self.ids()[a] != self.ids()[b] by {
                if a < n && b < n {
                    assert(before.ids()[a] != before.ids()[b]);
                } else if a < n {
                    assert(before.ids().contains(before.ids()[a]));
                } else {
                    assert(before.ids().contains(before.ids()[b]));
                }
            }
            self.lemma_details_at(n);
            assert forall|other: u128| other != course_id implies self.details(other)
                == before.details(other) by {
                before.lemma_same_elsewhere(self, n, other);
            }
        }
        true
    }

    /// Two tables that hold the same rows but for the row at `at`, whose course
    /// is not `other`, know the same of `other`. The later table may be one row
    /// longer, that row being the one at `at`.
    proof fn lemma_same_elsewhere(&self, later: &Courses, at: int, other: u128)
        requires
            self.wf(),
            later.wf(),
            0 <= at < later.rows@.len(),
            later.rows@[at].id != other,
            at < self.rows@.len() ==> self.rows@[at].id != other,
            self.rows@.len() <= later.rows@.len() <= self.rows@.len() + 1,
            later.rows@.len() == self.rows@.len() + 1 ==> at == self.rows@.len(),
            forall|i: int| 0 <= i < self.rows@.len() && i != at ==> self.rows@[i] == later.rows@[i],
        ensures
            self.details(other) == later.details(other),
    {
        if exists|i: int| 0 <= i < self.rows@.len() && (#[trigger] self.rows@[i]).id == other {
            let i = choose|i: int|
                0 <= i < self.rows@.len() && (#[trigger] self.rows@[i]).id == other;
            assert(later.rows@[i].id == other);
            self.lemma_details_at(i);
            later.lemma_details_at(i);
        } else {
            if exists|i: int|
                0 <= i < later.rows@.len() && (#[trigger] later.rows@[i]).id == other {
                let i = choose|i: int|
                    0 <= i < later.rows@.len() && (#[trigger] later.rows@[i]).id == other;
                assert(self.rows@[i].id == other);
            }
        }
    }

    /// Lists the identifiers of all courses, in the order they were added.
    pub fn fetch_all_courses(&self) -> (ids: Vec<u128>)
        ensures
            ids@ == self.ids(),
    {
        let mut ids: Vec<u128> = Vec::new();
        let mut i: usize = 0;
        while i < self.rows.len()
            invariant
                i <= self.rows@.len(),
                ids@ == self.ids().subrange(0, i as int),
            decreases self.rows@.len() - i,
        {
            ids.push(self.rows[i].id);
            i += 1;
            assert(ids@ =~= self.ids().subrange(0, i as int));
        }
        assert(ids@ =~= self.ids());
        ids
    }

    /// Tells whether the course exists.
    pub fn course_exists(&self, course_id: u128) -> (known: bool)
        requires
            self.wf(),
        ensures
            known == self.ids().contains(course_id),
            known == !(self.details(course_id) is UnknownCourse),
    {
        proof {
            self.lemma_known(course_id);
        }
        self.find(course_id).is_some()
    }

    /// Reads what the table knows of the code of a course.
    pub fn fetch_course_code_details(&self, course_id: u128) -> (details: CodeDetails)
        requires
            self.wf(),
        ensures
            details@ == self.details(course_id),
    {
        match self.find(course_id) {
            None => CodeDetails::UnknownCourse,
            Some(i) => match &self.rows[i].active {
                None => CodeDetails::NeverGenerated,
                Some(active) => CodeDetails::Active(
                    ActiveCode { code: active.code.clone(), expires_at: active.expires_at },
                ),
            },
        }
    }

    /// Stores a code for a course, in place of any code stored before. An
    /// unknown course stays unknown. No other course is touched.
    pub fn update_confirmation_code(&mut self, course_id: u128, code: &str, expires_at: i64)
        requires
            old(self).wf(),
        ensures
            final(self).wf(),
            final(self).ids() == old(self).ids(),
            final(self).details(course_id) == stored(
                old(self).details(course_id),
                ActiveCodeView { code: code@, expires_at },
            ),
            forall|other: u128|
                other != course_id ==> final(self).details(other) == old(self).details(other),
    {
        let ghost before = *self;
        match self.find(course_id) {
            None => {},
            Some(i) => {
                self.rows.set(
                    i,
                    CourseRow {
                        id: course_id,
                        active: Some(ActiveCode { code: code.to_owned(), expires_at }),
                    },
                );
                proof {
                    assert(self.ids() =~= before.ids());
                    self.lemma_details_at(i as int);
                    assert forall|other: u128| other != course_id implies self.details(other)
                        == before.details(other) by {
                        before.lemma_same_elsewhere(self, i as int, other);
                    }
                }
            },
        }
    }
}

} // verus!
