//! Confirmation codes: how one is made, how long it lives, and how a
//! submitted code is judged against it.
//!
//! A code is six characters drawn from `0-9A-Z`. It is valid from the instant
//! it is made until its expiry, the expiry itself excluded. A submitted code is
//! compared without regard to ASCII case. Expiry is looked at before the
//! comparison: an expired code is reported as expired whatever was submitted.

use crate::clock::utc_now_millis;
use crate::clock::CLOCK_END;
use crate::clock::MILLIS_PER_SECOND;
use crate::errors::AppError;
use crate::errors::ErrorView;
use crate::ids::format_uuid;
use crate::ids::uuid_text;
use crate::text::eq_ignore_ascii_case;
use crate::text::is_alphanumeric;
use crate::text::is_upper_alphanumeric;
use crate::text::same_ignoring_case;
use crate::text::to_ascii_uppercase;
use crate::text::upper_text;
use vstd::prelude::*;
use vstd::string::*;

verus! {

/// Number of characters in a confirmation code.
pub const CODE_LENGTH: usize = 6;

/// How long a code made on demand stays valid, in milliseconds.
pub const ON_DEMAND_VALIDITY_MILLIS: u64 = 300_000;

/// The longest validity, in milliseconds, for which an expiry can be
/// represented whatever the clock says.
pub const LONGEST_VALIDITY: u64 = 9_215_082_446_051_575_807;

/// A course's current code and the instant at which it stops being valid.
pub struct ActiveCode {
    pub code: String,
    pub expires_at: i64,
}

/// An [`ActiveCode`] with its code as plain text.
pub struct ActiveCodeView {
    pub code: Seq<char>,
    pub expires_at: i64,
}

impl View for ActiveCode {
    type V = ActiveCodeView;

    open spec fn view(&self) -> ActiveCodeView {
        ActiveCodeView { code: self.code@, expires_at: self.expires_at }
    }
}

/// What the store knows of a course's code.
pub enum CodeDetails {
    /// No such course.
    UnknownCourse,
    /// The course exists and no code was ever made for it.
    NeverGenerated,
    /// The course's current code.
    Active(ActiveCode),
}

/// [`CodeDetails`] with the code as plain text.
pub enum CodeDetailsView {
    UnknownCourse,
    NeverGenerated,
    Active(ActiveCodeView),
}

impl View for CodeDetails {
    type V = CodeDetailsView;

    open spec fn view(&self) -> CodeDetailsView {
        match self {
            CodeDetails::UnknownCourse => CodeDetailsView::UnknownCourse,
            CodeDetails::NeverGenerated => CodeDetailsView::NeverGenerated,
            CodeDetails::Active(active) => CodeDetailsView::Active(active@),
        }
    }
}

/// The judgement on a submitted code.
#[derive(Clone, Copy, Debug, PartialEq, Eq, Structural)]
pub enum CodeVerdict {
    Valid,
    InvalidCode,
    ExpiredCode,
    CourseNotFound,
}

/// A well-formed code has [`CODE_LENGTH`] characters, each a digit or an
/// upper-case ASCII letter.
pub open spec fn well_formed_code(code: Seq<char>) -> bool {
    &&& code.len() == CODE_LENGTH
    &&& forall|i: int| 0 <= i < code.len() ==> is_upper_alphanumeric(#[trigger] code[i])
}

/// The judgement on `submitted` at the instant `now`, given what the store
/// knows of the course.
pub open spec fn verdict(details: CodeDetailsView, submitted: Seq<char>, now: i64) -> CodeVerdict {
    match details {
        CodeDetailsView::UnknownCourse => CodeVerdict::CourseNotFound,
        CodeDetailsView::NeverGenerated => CodeVerdict::InvalidCode,
        CodeDetailsView::Active(active) => if now >= active.expires_at {
            CodeVerdict::ExpiredCode
        } else if same_ignoring_case(active.code, submitted) {
            CodeVerdict::Valid
        } else {
            CodeVerdict::InvalidCode
        },
    }
}

/// The expiry of a code made at `now` that is to live `validity` milliseconds,
/// where that instant can be represented.
pub open spec fn expiry(now: i64, validity: u64) -> Option<i64> {
    if now + validity <= i64::MAX {
        Some((now + validity) as i64)
    } else {
        None
    }
}

/// Milliseconds left at `now` before `expires_at`, never negative.
pub open spec fn remaining(now: i64, expires_at: i64) -> int {
    if expires_at > now {
        expires_at - now
    } else {
        0
    }
}

/// Share of the rotation interval that is still ahead, in whole percent:
/// `100 * min(remaining, interval) / interval`, rounded down. With an interval
/// of zero the share is 100 while anything remains and 0 otherwise.
pub open spec fn progress(now: i64, expires_at: i64, interval: u64) -> int {
    let left = remaining(now, expires_at);
    if interval == 0 {
        if left > 0 {
            100
        } else {
            0
        }
    } else if left >= interval {
        100
    } else {
        100 * left / (interval as int)
    }
}

/// Draws `count` characters with `rand::rng()` and
/// `rand::distr::Alphanumeric`, which yields ASCII letters and digits and
/// nothing else. Which characters come out is left open: the draw is random.
#[verifier::external_body]
pub(crate) fn sample_alphanumeric(count: usize) -> (drawn: String)
    ensures
        drawn@.len() == count,
        forall|i: int| 0 <= i < drawn@.len() ==> is_alphanumeric(#[trigger] drawn@[i]),
{
    rand::Rng::sample_iter(rand::rng(), &rand::distr::Alphanumeric).take(count).map(
        char::from,
    ).collect()
}

/// Turns drawn characters into a code: every ASCII letter in upper case.
/// Drawn characters are ASCII letters and digits, so the code holds no
/// lower-case letter of any alphabet.
pub fn code_from_sample(drawn: &str) -> (code: String)
    ensures
        code@ == upper_text(drawn@),
        drawn@.len() == CODE_LENGTH && (forall|i: int|
            0 <= i < drawn@.len() ==> is_alphanumeric(#[trigger] drawn@[i])) ==> well_formed_code(
            code@,
        ),
{
    let code = to_ascii_uppercase(drawn);
    proof {
        if drawn@.len() == CODE_LENGTH && (forall|i: int|
            0 <= i < drawn@.len() ==> is_alphanumeric(#[trigger] drawn@[i])) {
            assert forall|i: int| 0 <= i < code@.len() implies is_upper_alphanumeric(
                #[trigger] code@[i],
            ) by {
                assert(is_alphanumeric(drawn@[i]));
            }
        }
    }
    code
}

/// Makes a fresh random code. Which code is left open; it is always well
/// formed.
pub fn random_code() -> (code: String)
    ensures
        well_formed_code(code@),
{
    let drawn = sample_alphanumeric(CODE_LENGTH);
    code_from_sample(drawn.as_str())
}

/// Computes the expiry of a code made at `now` that is to live `validity`
/// milliseconds, or nothing where that instant is beyond the clock's range.
pub fn expires_after(now: i64, validity: u64) -> (at: Option<i64>)
    ensures
        at == expiry(now, validity),
{
    let sum: i128 = now as i128 + validity as i128;
    if sum <= i64::MAX as i128 {
        Some(sum as i64)
    } else {
        None
    }
}

/// Pairs a code with its expiry. Fails, as an internal error, exactly when
/// the expiry cannot be represented.
pub fn activate(code: String, now: i64, validity: u64) -> (made: Result<ActiveCode, AppError>)
    ensures
        match expiry(now, validity) {
            Some(at) => made is Ok && made->Ok_0@ == (ActiveCodeView {
                code: code@,
                expires_at: at,
            }),
            None => made is Err && made->Err_0@ == ErrorView::InternalError(
                "Invalid duration conversion"@,
            ),
        },
{
    match expires_after(now, validity) {
        Some(expires_at) => Ok(ActiveCode { code, expires_at }),
        None => Err(AppError::InternalError(String::from_str("Invalid duration conversion"))),
    }
}

/// Makes a fresh code that lives `validity` milliseconds from the current
/// instant. The code and the instant are whatever the generator and the clock
/// gave; the code is well formed and its expiry lies `validity` after an
/// instant on the clock. Fails exactly when that expiry cannot be
/// represented, which does not happen for a validity up to
/// [`LONGEST_VALIDITY`].
pub fn generate_code(validity: u64) -> (made: Result<ActiveCode, AppError>)
    ensures
        match made {
            Ok(active) => well_formed_code(active.code@) && exists|now: i64|
                0 <= now < CLOCK_END && #[trigger] expiry(now, validity) == Some(active.expires_at),
            Err(error) => error@ == ErrorView::InternalError("Invalid duration conversion"@)
                && exists|now: i64| 0 <= now < CLOCK_END && #[trigger] expiry(now, validity) is None,
        },
        validity <= LONGEST_VALIDITY ==> made is Ok,
{
    let code = random_code();
    let now = utc_now_millis();
    let made = activate(code, now, validity);
    proof {
        if made is Ok {
            assert(expiry(now, validity) == Some(made->Ok_0.expires_at));
        } else {
            assert(expiry(now, validity) is None);
        }
    }
    made
}

/// Judges a submitted code at the instant `now`.
pub fn check_code(details: &CodeDetails, submitted: &str, now: i64) -> (v: CodeVerdict)
    ensures
        v == verdict(details@, submitted@, now),
{
    match details {
        CodeDetails::UnknownCourse => CodeVerdict::CourseNotFound,
        CodeDetails::NeverGenerated => CodeVerdict::InvalidCode,
        CodeDetails::Active(active) => {
            if now >= active.expires_at {
                CodeVerdict::ExpiredCode
            } else if eq_ignore_ascii_case(active.code.as_str(), submitted) {
                CodeVerdict::Valid
            } else {
                CodeVerdict::InvalidCode
            }
        },
    }
}

/// The error that answers a verdict; nothing for `Valid`.
pub open spec fn verdict_error(v: CodeVerdict, course_id: u128) -> Option<ErrorView> {
    match v {
        CodeVerdict::Valid => None,
        CodeVerdict::InvalidCode => Some(ErrorView::InvalidCode),
        CodeVerdict::ExpiredCode => Some(ErrorView::ExpiredCode),
        CodeVerdict::CourseNotFound => Some(
            ErrorView::NotFound(
                "Course "@ + uuid_text(course_id) + " not found during code validation"@,
            ),
        ),
    }
}

/// Turns a verdict into the result a caller hands on: `Ok` for `Valid`, the
/// matching error otherwise.
pub fn verdict_result(v: CodeVerdict, course_id: u128) -> (r: Result<(), AppError>)
    ensures
        match verdict_error(v, course_id) {
            None => r is Ok,
            Some(error) => r is Err && r->Err_0@ == error,
        },
{
    match v {
        CodeVerdict::Valid => Ok(()),
        CodeVerdict::InvalidCode => Err(AppError::InvalidCode),
        CodeVerdict::ExpiredCode => Err(AppError::ExpiredCode),
        CodeVerdict::CourseNotFound => {
            let id = format_uuid(course_id);
            let message = String::from_str("Course ").concat(id.as_str()).concat(
                " not found during code validation",
            );
            Err(AppError::NotFound(message))
        },
    }
}

/// Validates a submitted code at the instant `now`: `Ok` exactly when the
/// verdict is `Valid`, and otherwise the error of the verdict.
pub fn validate_code_at(details: &CodeDetails, course_id: u128, submitted: &str, now: i64) -> (r:
    Result<(), AppError>)
    ensures
        match verdict_error(verdict(details@, submitted@, now), course_id) {
            None => r is Ok,
            Some(error) => r is Err && r->Err_0@ == error,
        },
{
    verdict_result(check_code(details, submitted, now), course_id)
}

/// Validates a submitted code at the current instant. The instant is
/// whatever the clock gave, so the result is the one [`validate_code_at`]
/// gives for some instant on the clock; where the instant does not matter
/// (an unknown course, a course without a code) the result is fixed.
pub fn validate_code(details: &CodeDetails, course_id: u128, submitted: &str) -> (r: Result<
    (),
    AppError,
>)
    ensures
        exists|now: i64|
            0 <= now < CLOCK_END && match verdict_error(
                #[trigger] verdict(details@, submitted@, now),
                course_id,
            ) {
                None => r is Ok,
                Some(error) => r is Err && r->Err_0@ == error,
            },
        details@ is UnknownCourse ==> r is Err && r->Err_0@ is NotFound,
        details@ is NeverGenerated ==> r is Err && r->Err_0@ is InvalidCode,
        r is Ok ==> details@ is Active && same_ignoring_case(
            details@->Active_0.code,
            submitted@,
        ),
{
    let now = utc_now_millis();
    let r = validate_code_at(details, course_id, submitted, now);
    proof {
        let v = verdict(details@, submitted@, now);
        assert(match verdict_error(v, course_id) {
            None => r is Ok,
            Some(error) => r is Err && r->Err_0@ == error,
        });
    }
    r
}

/// The code to show at `now`: the course's code while it is still valid,
/// nothing once it has expired or where none was made, and "not found" for an
/// unknown course.
pub open spec fn shown_code(details: CodeDetailsView, now: i64) -> Option<ActiveCodeView> {
    match details {
        CodeDetailsView::Active(active) => if active.expires_at > now {
            Some(active)
        } else {
            None
        },
        _ => None,
    }
}

/// Picks the code to show at the instant `now`.
pub fn current_code_at(details: CodeDetails, course_id: u128, now: i64) -> (r: Result<
    Option<ActiveCode>,
    AppError,
>)
    ensures
        details@ is UnknownCourse ==> r is Err && r->Err_0@ == ErrorView::NotFound(
            "Course "@ + uuid_text(course_id) + " not found when getting current code"@,
        ),
        !(details@ is UnknownCourse) ==> r is Ok && match shown_code(details@, now) {
            Some(active) => r->Ok_0 is Some && r->Ok_0->Some_0@ == active,
            None => r->Ok_0 is None,
        },
{
    match details {
        CodeDetails::UnknownCourse => {
            let id = format_uuid(course_id);
            let message = String::from_str("Course ").concat(id.as_str()).concat(
                " not found when getting current code",
            );
            Err(AppError::NotFound(message))
        },
        CodeDetails::NeverGenerated => Ok(None),
        CodeDetails::Active(active) => {
            if active.expires_at > now {
                Ok(Some(active))
            } else {
                Ok(None)
            }
        },
    }
}

/// Computes the milliseconds left at `now` before `expires_at`, never
/// negative.
pub fn remaining_millis(now: i64, expires_at: i64) -> (left: u64)
    ensures
        left == remaining(now, expires_at),
{
    if expires_at > now {
        if now >= 0 {
            (expires_at - now) as u64
        } else if expires_at < 0 {
            (expires_at - now) as u64
        } else {
            let below: u64 = (-(now + 1)) as u64 + 1;
            expires_at as u64 + below
        }
    } else {
        0
    }
}

/// Computes the whole seconds left at `now` before `expires_at`, never
/// negative.
pub fn expires_in_seconds(now: i64, expires_at: i64) -> (seconds: u64)
    ensures
        seconds == remaining(now, expires_at) / (MILLIS_PER_SECOND as int),
{
    remaining_millis(now, expires_at) / (MILLIS_PER_SECOND as u64)
}

/// Computes the share of the rotation interval still ahead, in whole
/// percent. The result never exceeds 100 and does not enter any verdict.
pub fn progress_percent(now: i64, expires_at: i64, interval: u64) -> (percent: u8)
    ensures
        percent == progress(now, expires_at, interval),
        percent <= 100,
        now >= expires_at ==> percent == 0,
{
    let left = remaining_millis(now, expires_at);
    if interval == 0 {
        if left > 0 {
            100
        } else {
            0
        }
    } else if left >= interval {
        100
    } else {
        let scaled: u128 = 100u128 * (left as u128);
        let share: u128 = scaled / (interval as u128);
        assert(share < 100) by (nonlinear_arith)
            requires
                share == (100 * left) / (interval as int),
                left < interval,
                interval > 0,
                left >= 0,
        ;
        share as u8
    }
}

} // verus!
