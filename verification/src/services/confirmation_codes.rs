//! Making, storing and showing codes against the course table.
//!
//! A rotation gives every course a fresh code that lives one interval from
//! the instant it is made. A course whose code cannot be made is left with
//! what it had, and the rotation goes on with the next course.

use crate::clock::utc_now_millis;
use crate::clock::CLOCK_END;
use crate::clock::MILLIS_PER_SECOND;
use crate::codes::activate;
use crate::codes::current_code_at;
use crate::codes::expires_in_seconds;
use crate::codes::expiry;
use crate::codes::progress;
use crate::codes::progress_percent;
use crate::codes::generate_code;
use crate::codes::random_code;
use crate::codes::remaining;
use crate::codes::shown_code;
use crate::codes::well_formed_code;
use crate::codes::ActiveCode;
use crate::codes::ActiveCodeView;
use crate::codes::CodeDetails;
use crate::codes::CodeDetailsView;
use crate::codes::LONGEST_VALIDITY;
use crate::codes::ON_DEMAND_VALIDITY_MILLIS;
use crate::db::courses::stored;
use crate::db::courses::Courses;
use crate::errors::AppError;
use crate::errors::ErrorView;
use crate::ids::uuid_text;
use crate::services::confirmation::CurrentCode;
use vstd::prelude::*;
use vstd::string::*;

verus! {

/// What the dashboard is told of a course's code.
pub struct ConfirmationCodeResponse {
    pub code: String,
    pub expires_at: i64,
    pub expires_in_seconds: u64,
}

/// A [`ConfirmationCodeResponse`] as plain values.
pub struct CodeResponseView {
    pub code: Seq<char>,
    pub expires_at: i64,
    pub expires_in_seconds: u64,
}

impl View for ConfirmationCodeResponse {
    type V = CodeResponseView;

    open spec fn view(&self) -> CodeResponseView {
        CodeResponseView {
            code: self.code@,
            expires_at: self.expires_at,
            expires_in_seconds: self.expires_in_seconds,
        }
    }
}

/// How a rotation went: the courses that got a fresh code and those that
/// kept what they had.
pub struct RotationReport {
    pub rotated: usize,
    pub failed: usize,
}

/// The course holds a well-formed code whose expiry lies `validity`
/// milliseconds after some instant on the clock.
pub open spec fn freshly_rotated(details: CodeDetailsView, validity: u64) -> bool {
    &&& details is Active
    &&& well_formed_code(details->Active_0.code)
    &&& exists|now: i64| 0 <= now < CLOCK_END && #[trigger] expiry(now, validity) == Some(
        details->Active_0.expires_at,
    )
}

/// The sentence kept for the log when a code cannot be made on demand.
pub open spec fn generation_failed_message() -> Seq<char> {
    "Failed to generate confirmation code"@
}

/// What the dashboard is told of `active` at the instant `now`.
pub open spec fn response_for(active: ActiveCodeView, now: i64) -> CodeResponseView {
    CodeResponseView {
        code: active.code,
        expires_at: active.expires_at,
        expires_in_seconds: (remaining(now, active.expires_at) / (MILLIS_PER_SECOND as int)) as u64,
    }
}

/// Builds what the dashboard is told of a code at the instant `now`.
pub fn code_response(active: ActiveCode, now: i64) -> (response: ConfirmationCodeResponse)
    ensures
        response@ == response_for(active@, now),
{
    let expires_in_seconds = expires_in_seconds(now, active.expires_at);
    ConfirmationCodeResponse { code: active.code, expires_at: active.expires_at, expires_in_seconds }
}

/// What the dashboard is told of a code at `now` when codes rotate every
/// `interval` milliseconds: the code, its expiry, whether it is still valid,
/// and the share of the interval still ahead in whole percent.
pub fn code_status(active: ActiveCode, now: i64, interval: u64) -> (status: CurrentCode)
    ensures
        status.code@ == active.code@,
        status.expires_at == active.expires_at,
        status.is_valid == (now < active.expires_at),
        status.progress == progress(now, active.expires_at, interval),
        status.progress <= 100,
        !status.is_valid ==> status.progress == 0,
{
    let is_valid = now < active.expires_at;
    let progress = progress_percent(now, active.expires_at, interval);
    CurrentCode { code: active.code, expires_at: active.expires_at, is_valid, progress }
}

/// Where the rotation stands.
#[derive(Clone, Copy, Debug, PartialEq, Eq, Structural)]
pub enum RotatorState {
    /// The server has just started; no pass has been made.
    Starting,
    /// A pass over all courses is under way.
    Rotating,
    /// The last pass is done; the next one is due after the interval.
    Waiting,
}

/// What happened to the rotation.
#[derive(Clone, Copy, Debug, PartialEq, Eq, Structural)]
pub enum RotatorEvent {
    /// The server started.
    Started,
    /// A pass over all courses came to its end, with or without failures.
    PassDone,
    /// The interval has run out.
    Tick,
}

/// What the rotation is to do next.
#[derive(Clone, Copy, Debug, PartialEq, Eq, Structural)]
pub enum RotatorCommand {
    /// Give every course a fresh code.
    Rotate,
    /// Wait for this many milliseconds.
    Wait(u64),
}

/// The transition of the rotation. The first thing after start-up is a pass
/// over all courses, so that no course waits an interval for its first code;
/// after every pass, however it went, comes a wait of one interval, and after
/// every wait a pass.
pub open spec fn rotator_step(state: RotatorState, event: RotatorEvent, interval: u64) -> (
    RotatorState,
    RotatorCommand,
) {
    match (state, event) {
        (RotatorState::Starting, _) => (RotatorState::Rotating, RotatorCommand::Rotate),
        (RotatorState::Rotating, RotatorEvent::PassDone) => (
            RotatorState::Waiting,
            RotatorCommand::Wait(interval),
        ),
        (RotatorState::Rotating, _) => (RotatorState::Rotating, RotatorCommand::Rotate),
        (RotatorState::Waiting, RotatorEvent::Tick) => (
            RotatorState::Rotating,
            RotatorCommand::Rotate,
        ),
        (RotatorState::Waiting, _) => (RotatorState::Waiting, RotatorCommand::Wait(interval)),
    }
}

/// Decides what the rotation does next.
pub fn rotate_next(state: RotatorState, event: RotatorEvent, interval: u64) -> (next: (
    RotatorState,
    RotatorCommand,
))
    ensures
        next == rotator_step(state, event, interval),
{
    match state {
        RotatorState::Starting => (RotatorState::Rotating, RotatorCommand::Rotate),
        RotatorState::Rotating => match event {
            RotatorEvent::PassDone => (RotatorState::Waiting, RotatorCommand::Wait(interval)),
            _ => (RotatorState::Rotating, RotatorCommand::Rotate),
        },
        RotatorState::Waiting => match event {
            RotatorEvent::Tick => (RotatorState::Rotating, RotatorCommand::Rotate),
            _ => (RotatorState::Waiting, RotatorCommand::Wait(interval)),
        },
    }
}

/// Stores a code that was made for a course, or hands on the failure to make
/// it. A code is stored in place of the one before; a failure leaves the
/// table as it was.
pub fn store_code(courses: &mut Courses, course_id: u128, made: Result<ActiveCode, AppError>) -> (r:
    Result<String, AppError>)
    requires
        old(courses).wf(),
    ensures
        final(courses).wf(),
        final(courses).ids() == old(courses).ids(),
        forall|other: u128|
            other != course_id ==> final(courses).details(other) == old(courses).details(other),
        match made {
            Ok(active) => r is Ok && r->Ok_0@ == active.code@ && final(courses).details(course_id)
                == stored(old(courses).details(course_id), active@),
            Err(error) => r is Err && r->Err_0@ == error@ && final(courses).details(course_id)
                == old(courses).details(course_id),
        },
{
    match made {
        Ok(active) => {
            courses.update_confirmation_code(course_id, active.code.as_str(), active.expires_at);
            Ok(active.code)
        },
        Err(error) => Err(error),
    }
}

/// Makes a fresh code for a course and stores it. The code and the instant
/// are whatever the generator and the clock gave. Fails, leaving the table as
/// it was, exactly when the expiry cannot be represented.
pub fn generate_and_store_code(courses: &mut Courses, course_id: u128, validity: u64) -> (r: Result<
    String,
    AppError,
>)
    requires
        old(courses).wf(),
    ensures
        final(courses).wf(),
        final(courses).ids() == old(courses).ids(),
        forall|other: u128|
            other != course_id ==> final(courses).details(other) == old(courses).details(other),
        match r {
            Ok(code) => well_formed_code(code@) && if old(courses).details(course_id)
                is UnknownCourse {
                final(courses).details(course_id) is UnknownCourse
            } else {
                freshly_rotated(final(courses).details(course_id), validity) && final(courses).details(course_id)->Active_0.code == code@
            },
            Err(error) => error@ == ErrorView::InternalError("Invalid duration conversion"@)
                && final(courses).details(course_id) == old(courses).details(course_id),
        },
        validity <= LONGEST_VALIDITY ==> r is Ok,
{
    let made = generate_code(validity);
    store_code(courses, course_id, made)
}

/// Gives every course a fresh code that lives `validity` milliseconds. A
/// course whose code cannot be made keeps what it had and is counted as
/// failed; the others are rotated all the same.
pub fn rotate_all(courses: &mut Courses, validity: u64) -> (report: RotationReport)
    requires
        old(courses).wf(),
    ensures
        final(courses).wf(),
        final(courses).ids() == old(courses).ids(),
        report.rotated + report.failed == old(courses).ids().len(),
        forall|course_id: u128|
            old(courses).ids().contains(course_id) ==> freshly_rotated(
                #[trigger] final(courses).details(course_id),
                validity,
            ) || final(courses).details(course_id) == old(courses).details(course_id),
        forall|course_id: u128|
            !old(courses).ids().contains(course_id) ==> #[trigger] final(courses).details(
                course_id,
            ) == old(courses).details(course_id),
        report.failed == 0 ==> forall|course_id: u128|
            old(courses).ids().contains(course_id) ==> freshly_rotated(
                #[trigger] final(courses).details(course_id),
                validity,
            ),
        validity <= LONGEST_VALIDITY ==> report.failed == 0,
{
    let ids = courses.fetch_all_courses();
    let ghost before = *courses;
    let mut rotated: usize = 0;
    let mut failed: usize = 0;
    let mut i: usize = 0;
    proof {
        courses.lemma_known(0);
    }
    while i < ids.len()
        invariant
            courses.wf(),
            before.wf(),
            courses.ids() == ids@,
            before.ids() == ids@,
            ids@.no_duplicates(),
            i <= ids@.len(),
            rotated + failed == i,
            validity <= LONGEST_VALIDITY ==> failed == 0,
            forall|j: int|
                0 <= j < i ==> freshly_rotated(#[trigger] courses.details(ids@[j]), validity)
                    || courses.details(ids@[j]) == before.details(ids@[j]),
            failed == 0 ==> forall|j: int|
                0 <= j < i ==> freshly_rotated(#[trigger] courses.details(ids@[j]), validity),
            forall|j: int|
                i <= j < ids@.len() ==> #[trigger] courses.details(ids@[j]) == before.details(
                    ids@[j],
                ),
            forall|course_id: u128|
                !ids@.contains(course_id) ==> #[trigger] courses.details(course_id)
                    == before.details(course_id),
        decreases ids@.len() - i,
    {
        let course_id = ids[i];
        let ghost held = *courses;
        proof {
            held.lemma_known(course_id);
            assert(ids@.contains(course_id));
        }
        match generate_and_store_code(courses, course_id, validity) {
            Ok(_) => {
                rotated += 1;
            },
            Err(_) => {
                failed += 1;
            },
        }
        proof {
            assert forall|j: int| 0 <= j < ids@.len() && j != i implies #[trigger] courses.details(
                ids@[j],
            ) == held.details(ids@[j]) by {
                assert(ids@[j] != ids@[i as int]);
            }
        }
        i += 1;
    }
    proof {
        assert forall|course_id: u128| ids@.contains(course_id) implies freshly_rotated(
            #[trigger] courses.details(course_id),
            validity,
        ) || courses.details(course_id) == before.details(course_id) by {
            let j = choose|j: int| 0 <= j < ids@.len() && ids@[j] == course_id;
            assert(freshly_rotated(courses.details(ids@[j]), validity) || courses.details(ids@[j])
                == before.details(ids@[j]));
        }
        if failed == 0 {
            assert forall|course_id: u128| ids@.contains(course_id) implies freshly_rotated(
                #[trigger] courses.details(course_id),
                validity,
            ) by {
                let j = choose|j: int| 0 <= j < ids@.len() && ids@[j] == course_id;
                assert(freshly_rotated(courses.details(ids@[j]), validity));
            }
        }
    }
    RotationReport { rotated, failed }
}

/// One write of a rotation: the course and the code made for it, or the
/// reason none was made.
pub struct PlannedCode {
    pub course_id: u128,
    pub made: Result<ActiveCode, AppError>,
}

/// Makes a fresh code for each of the given courses, in their order, for a
/// caller that stores them itself. Every course gets an entry, whether or
/// not the code of another could be made.
pub fn plan_rotation(course_ids: &Vec<u128>, validity: u64) -> (plan: Vec<PlannedCode>)
    ensures
        plan@.len() == course_ids@.len(),
        forall|i: int|
            0 <= i < plan@.len() ==> (#[trigger] plan@[i]).course_id == course_ids@[i] && match plan@[i].made {
                Ok(active) => freshly_rotated(CodeDetailsView::Active(active@), validity),
                Err(error) => error@ == ErrorView::InternalError("Invalid duration conversion"@),
            },
        validity <= LONGEST_VALIDITY ==> forall|i: int|
            0 <= i < plan@.len() ==> (#[trigger] plan@[i]).made is Ok,
{
    let mut plan: Vec<PlannedCode> = Vec::new();
    let mut i: usize = 0;
    while i < course_ids.len()
        invariant
            i <= course_ids@.len(),
            plan@.len() == i,
            validity <= LONGEST_VALIDITY ==> forall|j: int|
                0 <= j < i ==> (#[trigger] plan@[j]).made is Ok,
            forall|j: int|
                0 <= j < i ==> (#[trigger] plan@[j]).course_id == course_ids@[j] && match plan@[j].made {
                    Ok(active) => freshly_rotated(CodeDetailsView::Active(active@), validity),
                    Err(error) => error@ == ErrorView::InternalError(
                        "Invalid duration conversion"@,
                    ),
                },
        decreases course_ids@.len() - i,
    {
        let made = generate_code(validity);
        plan.push(PlannedCode { course_id: course_ids[i], made });
        i += 1;
    }
    plan
}

/// What is to be done to show the code of a course.
pub enum CodeDecision {
    /// The course's code is still valid: show it.
    Show(ActiveCode),
    /// The course has no valid code: store this one, then show it.
    Store(ActiveCode),
}

/// What is to be done to show the code of a course at the instant `now`,
/// when `fresh` is the code to fall back on.
pub open spec fn decided(details: CodeDetailsView, course_id: u128, now: i64, fresh: Seq<char>) -> Result<
    (bool, ActiveCodeView),
    ErrorView,
> {
    match details {
        CodeDetailsView::UnknownCourse => Err(
            ErrorView::NotFound(
                "Course "@ + uuid_text(course_id) + " not found when getting current code"@,
            ),
        ),
        _ => match shown_code(details, now) {
            Some(active) => Ok((false, active)),
            None => match expiry(now, ON_DEMAND_VALIDITY_MILLIS) {
                Some(at) => Ok((true, ActiveCodeView { code: fresh, expires_at: at })),
                None => Err(ErrorView::InternalError(generation_failed_message())),
            },
        },
    }
}

/// Decides what is to be done to show the code of a course at the instant
/// `now`: show the code that is still valid, or store `fresh` with the
/// on-demand validity and show that. An unknown course is "not found"; a
/// fresh code whose expiry cannot be represented is an internal error.
pub fn decide_code(details: CodeDetails, course_id: u128, now: i64, fresh: String) -> (r: Result<
    CodeDecision,
    AppError,
>)
    ensures
        match decided(details@, course_id, now, fresh@) {
            Ok((store, active)) => r is Ok && if store {
                r->Ok_0 is Store && r->Ok_0->Store_0@ == active
            } else {
                r->Ok_0 is Show && r->Ok_0->Show_0@ == active
            },
            Err(error) => r is Err && r->Err_0@ == error,
        },
{
    match current_code_at(details, course_id, now) {
        Err(error) => Err(error),
        Ok(Some(active)) => Ok(CodeDecision::Show(active)),
        Ok(None) => match activate(fresh, now, ON_DEMAND_VALIDITY_MILLIS) {
            Ok(active) => Ok(CodeDecision::Store(active)),
            Err(_) => Err(
                AppError::InternalError(String::from_str("Failed to generate confirmation code")),
            ),
        },
    }
}

/// What showing the code of a course comes to at the instant `now`, when
/// `fresh` is the code to fall back on: the answer, and what the table knows
/// of the course afterwards.
pub open spec fn served(details: CodeDetailsView, course_id: u128, now: i64, fresh: Seq<char>) -> (
    Result<CodeResponseView, ErrorView>,
    CodeDetailsView,
) {
    match details {
        CodeDetailsView::UnknownCourse => (
            Err(
                ErrorView::NotFound(
                    "Course "@ + uuid_text(course_id) + " not found when getting current code"@,
                ),
            ),
            details,
        ),
        _ => match shown_code(details, now) {
            Some(active) => (Ok(response_for(active, now)), details),
            None => match expiry(now, ON_DEMAND_VALIDITY_MILLIS) {
                Some(at) => {
                    let active = ActiveCodeView { code: fresh, expires_at: at };
                    (Ok(response_for(active, now)), CodeDetailsView::Active(active))
                },
                None => (Err(ErrorView::InternalError(generation_failed_message())), details),
            },
        },
    }
}

/// The answer to a request for a code as plain values.
pub open spec fn served_view(r: Result<ConfirmationCodeResponse, AppError>) -> Result<
    CodeResponseView,
    ErrorView,
> {
    match r {
        Ok(response) => Ok(response@),
        Err(error) => Err(error@),
    }
}

/// Shows the code of a course at the instant `now`. A code that is still
/// valid is shown as it is. Where there is none, or it has expired, `fresh`
/// is stored with the on-demand validity and shown. An unknown course is "not
/// found".
pub fn serve_code_at(courses: &mut Courses, course_id: u128, now: i64, fresh: String) -> (r: Result<
    ConfirmationCodeResponse,
    AppError,
>)
    requires
        old(courses).wf(),
    ensures
        final(courses).wf(),
        final(courses).ids() == old(courses).ids(),
        forall|other: u128|
            other != course_id ==> final(courses).details(other) == old(courses).details(other),
        (served_view(r), final(courses).details(course_id)) == served(
            old(courses).details(course_id),
            course_id,
            now,
            fresh@,
        ),
{
    let details = courses.fetch_course_code_details(course_id);
    match decide_code(details, course_id, now, fresh) {
        Err(error) => Err(error),
        Ok(CodeDecision::Show(active)) => Ok(code_response(active, now)),
        Ok(CodeDecision::Store(active)) => {
            courses.update_confirmation_code(course_id, active.code.as_str(), active.expires_at);
            Ok(code_response(active, now))
        },
    }
}

/// Shows the code of a course at the current instant, making one where
/// needed. The instant and the fallback code are whatever the clock and the
/// generator gave: the result is the one [`serve_code_at`] gives for some
/// instant on the clock and some well-formed code.
pub fn get_confirmation_code(courses: &mut Courses, course_id: u128) -> (r: Result<
    ConfirmationCodeResponse,
    AppError,
>)
    requires
        old(courses).wf(),
    ensures
        final(courses).wf(),
        final(courses).ids() == old(courses).ids(),
        forall|other: u128|
            other != course_id ==> final(courses).details(other) == old(courses).details(other),
        exists|now: i64, fresh: Seq<char>|
            0 <= now < CLOCK_END && well_formed_code(fresh) && (served_view(r), final(courses).details(course_id))
                == #[trigger] served(old(courses).details(course_id), course_id, now, fresh),
        old(courses).details(course_id) is UnknownCourse <==> r is Err,
        r is Err ==> r->Err_0@ is NotFound,
{
    let now = utc_now_millis();
    let fresh = random_code();
    let ghost text = fresh@;
    let r = serve_code_at(courses, course_id, now, fresh);
    proof {
        assert((served_view(r), courses.details(course_id)) == served(
            old(courses).details(course_id),
            course_id,
            now,
            text,
        ));
    }
    r
}

/// Picks the code to show at the current instant: the course's code while
/// it is still valid, nothing otherwise, "not found" for an unknown course.
pub fn get_current_code(courses: &Courses, course_id: u128) -> (r: Result<
    Option<ActiveCode>,
    AppError,
>)
    requires
        courses.wf(),
    ensures
        courses.details(course_id) is UnknownCourse <==> r is Err,
        r is Err ==> r->Err_0@ == ErrorView::NotFound(
            "Course "@ + uuid_text(course_id) + " not found when getting current code"@,
        ),
        r is Ok ==> exists|now: i64|
            0 <= now < CLOCK_END && match #[trigger] shown_code(courses.details(course_id), now) {
                Some(active) => r->Ok_0 is Some && r->Ok_0->Some_0@ == active,
                None => r->Ok_0 is None,
            },
        r is Ok && r->Ok_0 is Some ==> courses.details(course_id) == CodeDetailsView::Active(
            r->Ok_0->Some_0@,
        ),
{
    let now = utc_now_millis();
    let details = courses.fetch_course_code_details(course_id);
    let r = current_code_at(details, course_id, now);
    proof {
        if r is Ok {
            assert(match shown_code(courses.details(course_id), now) {
                Some(active) => r->Ok_0 is Some && r->Ok_0->Some_0@ == active,
                None => r->Ok_0 is None,
            });
        }
    }
    r
}

} // verus!
