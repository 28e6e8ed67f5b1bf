//! Codes kept as a history, one row per code.
//!
//! Here every code that is made stays on record with the instant it was
//! made; the code itself is the key, so no code is on record twice. A
//! submitted code is looked up exactly as it was typed, case included, and
//! is good while its own row has not expired.

use crate::clock::utc_now_millis;
use crate::clock::CLOCK_END;
use crate::codes::progress;
use crate::codes::progress_percent;
use crate::codes::sample_alphanumeric;
use crate::codes::CODE_LENGTH;
use crate::errors::AppError;
use crate::errors::ErrorView;
use crate::text::eq_text;
use crate::text::is_alphanumeric;
use vstd::prelude::*;
use vstd::string::*;

verus! {

/// Milliseconds in a minute.
pub const MILLIS_PER_MINUTE: i64 = 60_000;

/// One code on record.
pub struct ConfirmationCode {
    pub code: String,
    pub course_id: u128,
    pub expires_at: i64,
    pub created_at: i64,
}

/// A [`ConfirmationCode`] as plain values.
pub struct CodeRow {
    pub code: Seq<char>,
    pub course_id: u128,
    pub expires_at: i64,
    pub created_at: i64,
}

impl View for ConfirmationCode {
    type V = CodeRow;

    open spec fn view(&self) -> CodeRow {
        CodeRow {
            code: self.code@,
            course_id: self.course_id,
            expires_at: self.expires_at,
            created_at: self.created_at,
        }
    }
}

/// What the dashboard is told of the newest code of a course.
pub struct CurrentCode {
    pub code: String,
    pub expires_at: i64,
    pub is_valid: bool,
    pub progress: u8,
}

/// The instant `minutes` minutes after `now`, where it can be represented.
pub open spec fn minutes_after(now: i64, minutes: i64) -> Option<i64> {
    if i64::MIN <= now + minutes * MILLIS_PER_MINUTE <= i64::MAX {
        Some((now + minutes * MILLIS_PER_MINUTE) as i64)
    } else {
        None
    }
}

/// The fewest minutes of validity for which an expiry can be represented
/// whatever the clock says.
pub const SHORTEST_EXPIRY_MINUTES: i64 = -153_722_867_280_912;

/// The most minutes of validity for which an expiry can be represented
/// whatever the clock says.
pub const LONGEST_EXPIRY_MINUTES: i64 = 153_584_707_434_192;

/// The text is one the generator can draw: [`CODE_LENGTH`] letters and
/// digits, in either case.
pub open spec fn can_be_drawn(code: Seq<char>) -> bool {
    &&& code.len() == CODE_LENGTH
    &&& forall|i: int| 0 <= i < code.len() ==> is_alphanumeric(#[trigger] code[i])
}

/// No code on record is one the generator can draw.
pub open spec fn none_can_be_drawn(rows: Seq<CodeRow>) -> bool {
    forall|i: int| 0 <= i < rows.len() ==> !can_be_drawn((#[trigger] rows[i]).code)
}

/// The code `submitted` is good for the course at `now`: it is on record for
/// that course, exactly as typed, and its row has not expired.
pub open spec fn good_code(rows: Seq<CodeRow>, submitted: Seq<char>, course_id: u128, now: i64) -> bool {
    exists|i: int|
        0 <= i < rows.len() && (#[trigger] rows[i]).code == submitted && rows[i].course_id
            == course_id && now < rows[i].expires_at
}

/// The row at place `at` is the newest on record for the course: none of
/// the course was made later, and none that was made at the same instant
/// stands after it.
pub open spec fn newest_for(rows: Seq<CodeRow>, course_id: u128, at: int) -> bool {
    &&& 0 <= at < rows.len()
    &&& rows[at].course_id == course_id
    &&& forall|j: int|
        0 <= j < rows.len() && (#[trigger] rows[j]).course_id == course_id ==> rows[j].created_at
            <= rows[at].created_at
    &&& forall|j: int|
        at < j < rows.len() && (#[trigger] rows[j]).course_id == course_id ==> rows[j].created_at
            < rows[at].created_at
}

/// The codes on record.
pub struct ConfirmationCodeService {
    rows: Vec<ConfirmationCode>,
}

impl View for ConfirmationCodeService {
    type V = Seq<CodeRow>;

    /// The rows in the order they were made.
    closed spec fn view(&self) -> Seq<CodeRow> {
        self.rows@.map_values(|row: ConfirmationCode| row@)
    }
}

impl ConfirmationCodeService {
    /// No code is on record twice.
    pub open spec fn wf(&self) -> bool {
        forall|i: int, j: int|
            0 <= i < j < self@.len() ==> (#[trigger] self@[i]).code != (#[trigger] self@[j]).code
    }

    /// A service without any code on record.
    pub fn new() -> (service: Self)
        ensures
            service.wf(),
            service@ == Seq::<CodeRow>::empty(),
    {
        let service = ConfirmationCodeService { rows: Vec::new() };
        assert(service@ =~= Seq::<CodeRow>::empty());
        service
    }

    fn find(&self, code: &str) -> (at: Option<usize>)
        ensures
            match at {
                Some(i) => i < self@.len() && self@[i as int].code == code@,
                None => forall|j: int| 0 <= j < self@.len() ==> (#[trigger] self@[j]).code != code@,
            },
    {
        let mut i: usize = 0;
        while i < self.rows.len()
            invariant
                i <= self.rows@.len(),
                self@.len() == self.rows@.len(),
                forall|j: int| 0 <= j < i ==> (#[trigger] self@[j]).code != code@,
            decreases self.rows@.len() - i,
        {
            if eq_text(self.rows[i].code.as_str(), code) {
                return Some(i);
            }
            i += 1;
        }
        None
    }

    /// Puts a code on record for a course, made at `now` and good for
    /// `expiry_mins` minutes. A code that is on record already is a conflict;
    /// an expiry that cannot be represented is an internal error. Either way
    /// the record stays as it was.
    pub fn record_code(&mut self, code: String, course_id: u128, expiry_mins: i64, now: i64) -> (r:
        Result<ConfirmationCode, AppError>)
        requires
            old(self).wf(),
        ensures
            final(self).wf(),
            match minutes_after(now, expiry_mins) {
                None => r is Err && r->Err_0@ == ErrorView::InternalError(
                    "Invalid duration conversion"@,
                ) && final(self)@ == old(self)@,
                Some(expires_at) => if exists|i: int|
                    0 <= i < old(self)@.len() && (#[trigger] old(self)@[i]).code == code@ {
                    r is Err && r->Err_0@ == ErrorView::Conflict("Resource already exists."@)
                        && final(self)@ == old(self)@
                } else {
                    r is Ok && r->Ok_0@ == (CodeRow {
                        code: code@,
                        course_id,
                        expires_at,
                        created_at: now,
                    }) && final(self)@ == old(self)@.push(r->Ok_0@)
                },
            },
    {
        assert(-0x8000_0000_0000_0000 * 60_000 <= expiry_mins * 60_000 <= 0x8000_0000_0000_0000
            * 60_000) by (nonlinear_arith)
            requires
                -0x8000_0000_0000_0000 <= expiry_mins <= 0x8000_0000_0000_0000,
        ;
        let span: i128 = expiry_mins as i128 * MILLIS_PER_MINUTE as i128;
        let sum: i128 = now as i128 + span;
        if sum < i64::MIN as i128 || sum > i64::MAX as i128 {
            return Err(AppError::InternalError(String::from_str("Invalid duration conversion")));
        }
        let expires_at: i64 = sum as i64;
        if self.find(code.as_str()).is_some() {
            return Err(AppError::Conflict(String::from_str("Resource already exists.")));
        }
        let ghost before = self@;
        let copy = ConfirmationCode { code: code.clone(), course_id, expires_at, created_at: now };
        self.rows.push(ConfirmationCode { code, course_id, expires_at, created_at: now });
        assert(self@ =~= before.push(copy@));
        Ok(copy)
    }

    /// Makes a fresh random code for a course and puts it on record. The code
    /// and the instant are whatever the generator and the clock gave: the row
    /// that is added holds a code the generator can draw, the course, an
    /// instant of making on the clock, and the expiry `expiry_mins` minutes
    /// after it.
    ///
    /// The draw can hit a code that is on record already, which is a
    /// conflict, and the expiry can lie beyond what can be represented, which
    /// is an internal error; either way the record stays as it was. Neither
    /// can happen, and the code is made, where no code on record is one the
    /// generator can draw and the minutes lie from
    /// [`SHORTEST_EXPIRY_MINUTES`] to [`LONGEST_EXPIRY_MINUTES`].
    pub fn generate_code(&mut self, course_id: u128, expiry_mins: i64) -> (r: Result<
        ConfirmationCode,
        AppError,
    >)
        requires
            old(self).wf(),
        ensures
            final(self).wf(),
            match r {
                Ok(made) => final(self)@ == old(self)@.push(made@) && made.course_id == course_id
                    && can_be_drawn(made.code@) && 0 <= made.created_at < CLOCK_END
                    && minutes_after(made.created_at, expiry_mins) == Some(made.expires_at)
                    && forall|i: int|
                    0 <= i < old(self)@.len() ==> (#[trigger] old(self)@[i]).code != made.code@,
                Err(error) => final(self)@ == old(self)@ && {
                    ||| error@ == ErrorView::Conflict("Resource already exists."@) && exists|
                        i: int,
                    | 0 <= i < old(self)@.len() && can_be_drawn((#[trigger] old(self)@[i]).code)
                    ||| error@ == ErrorView::InternalError("Invalid duration conversion"@)
                        && exists|now: i64|
                        0 <= now < CLOCK_END && #[trigger] minutes_after(now, expiry_mins) is None
                },
            },
            none_can_be_drawn(old(self)@) && SHORTEST_EXPIRY_MINUTES <= expiry_mins
                <= LONGEST_EXPIRY_MINUTES ==> r is Ok,
    {
        let code = sample_alphanumeric(CODE_LENGTH);
        let now = utc_now_millis();
        let ghost drawn = code@;
        proof {
            assert(can_be_drawn(drawn));
            if SHORTEST_EXPIRY_MINUTES <= expiry_mins <= LONGEST_EXPIRY_MINUTES {
                assert(-9_223_372_036_854_720_000 <= expiry_mins * 60_000
                    <= 9_215_082_446_051_520_000) by (nonlinear_arith)
                    requires
                        -153_722_867_280_912 <= expiry_mins <= 153_584_707_434_192,
                ;
                assert(minutes_after(now, expiry_mins) is Some);
            }
        }
        let r = self.record_code(code, course_id, expiry_mins, now);
        proof {
            if r is Err {
                if minutes_after(now, expiry_mins) is Some {
                    let i = choose|i: int|
                        0 <= i < old(self)@.len() && (#[trigger] old(self)@[i]).code == drawn;
                    assert(can_be_drawn(old(self)@[i].code));
                }
            }
        }
        r
    }

    /// Tells whether a submitted code is good for a course at `now`.
    pub fn validate_code_at(&self, code: &str, course_id: u128, now: i64) -> (good: bool)
        requires
            self.wf(),
        ensures
            good == good_code(self@, code@, course_id, now),
    {
        match self.find(code) {
            Some(i) => {
                let row = &self.rows[i];
                let good = row.course_id == course_id && now < row.expires_at;
                proof {
                    if good_code(self@, code@, course_id, now) {
                        let j = choose|j: int|
                            0 <= j < self@.len() && (#[trigger] self@[j]).code == code@
                                && self@[j].course_id == course_id && now < self@[j].expires_at;
                        if j < i {
                            assert(self@[j].code != self@[i as int].code);
                        } else if j > i {
                            assert(self@[i as int].code != self@[j].code);
                        }
                    }
                    if good {
                        assert(self@[i as int].code == code@);
                    }
                }
                good
            },
            None => false,
        }
    }

    /// Tells whether a submitted code is good for a course at the current
    /// instant. A code that is not on record for the course is never good.
    pub fn validate_code(&self, code: &str, course_id: u128) -> (good: bool)
        requires
            self.wf(),
        ensures
            exists|now: i64| 0 <= now < CLOCK_END && good == #[trigger] good_code(self@, code@, course_id, now),
    {
        let now = utc_now_millis();
        let good = self.validate_code_at(code, course_id, now);
        assert(good == good_code(self@, code@, course_id, now));
        good
    }

    /// The newest code on record for a course: the one made last among those
    /// with the latest instant of making.
    pub fn latest_for(&self, course_id: u128) -> (latest: Option<usize>)
        ensures
            match latest {
                Some(i) => newest_for(self@, course_id, i as int),
                None => forall|j: int|
                    0 <= j < self@.len() ==> (#[trigger] self@[j]).course_id != course_id,
            },
    {
        let mut latest: Option<usize> = None;
        let mut i: usize = 0;
        while i < self.rows.len()
            invariant
                i <= self.rows@.len(),
                self@.len() == self.rows@.len(),
                match latest {
                    Some(k) => k < i && self@[k as int].course_id == course_id && (forall|j: int|
                        0 <= j < i && (#[trigger] self@[j]).course_id == course_id
                            ==> self@[j].created_at <= self@[k as int].created_at) && (forall|
                        j: int,
                    |
                        k < j < i && (#[trigger] self@[j]).course_id == course_id
                            ==> self@[j].created_at < self@[k as int].created_at),
                    None => forall|j: int|
                        0 <= j < i ==> (#[trigger] self@[j]).course_id != course_id,
                },
            decreases self.rows@.len() - i,
        {
            if self.rows[i].course_id == course_id {
                match latest {
                    Some(k) => {
                        if self.rows[i].created_at >= self.rows[k].created_at {
                            latest = Some(i);
                        }
                    },
                    None => {
                        latest = Some(i);
                    },
                }
            }
            i += 1;
        }
        latest
    }

    /// What the dashboard is told at `now` of the newest code of a course,
    /// when the rotation interval is `interval` milliseconds: the code of the
    /// newest row of the course, its expiry, whether it is still valid, and
    /// the share of the interval still ahead; nothing where the course has no
    /// code on record.
    pub fn current_code(&self, course_id: u128, now: i64, interval: u64) -> (shown: Option<
        CurrentCode,
    >)
        ensures
            match shown {
                Some(current) => exists|i: int|
                    #[trigger] newest_for(self@, course_id, i) && current.code@ == self@[i].code
                        && current.expires_at == self@[i].expires_at && current.is_valid == (now
                        < self@[i].expires_at) && current.progress == progress(
                        now,
                        self@[i].expires_at,
                        interval,
                    ) && current.progress <= 100,
                None => forall|j: int|
                    0 <= j < self@.len() ==> (#[trigger] self@[j]).course_id != course_id,
            },
    {
        match self.latest_for(course_id) {
            Some(i) => {
                let row = &self.rows[i];
                let current = CurrentCode {
                    code: row.code.clone(),
                    expires_at: row.expires_at,
                    is_valid: now < row.expires_at,
                    progress: progress_percent(now, row.expires_at, interval),
                };
                assert(newest_for(self@, course_id, i as int));
                Some(current)
            },
            None => None,
        }
    }
}

} // verus!
