//! What holds of the rules taken together.
//!
//! Each statement here is proved from the contracts of the functions it
//! speaks of, over the same specification functions those contracts use.

use crate::clock::day_of;
use crate::codes::expiry;
use crate::codes::verdict;
use crate::codes::ActiveCodeView;
use crate::codes::CodeDetailsView;
use crate::codes::CodeVerdict;
use crate::db::attendance::lemma_students_present_finite;
use crate::db::attendance::lemma_students_present_push;
use crate::db::attendance::on_day;
use crate::db::attendance::present_count;
use crate::db::attendance::students_present;
use crate::db::attendance::RecordView;
use crate::db::courses::stored;
use crate::db::device_submissions::claim_outcome;
use crate::db::device_submissions::ClaimOutcome;
use crate::db::device_submissions::DeviceClaim;
use crate::models::attendance::SubmissionView;
use crate::services::attendance::answer_for;
use crate::services::attendance::outcome;
use crate::services::attendance::record_of;
use crate::services::attendance::records_after;
use crate::submission::step;
use crate::submission::ReplyView;
use crate::submission::SubmissionState;
use crate::text::same_ignoring_case;
use crate::ws::next_check_due;
use crate::ws::timed_out;
use crate::ws::CLIENT_TIMEOUT;
use crate::ws_server::fan_out;
use crate::ws_server::Outgoing;
use vstd::prelude::*;

verus! {

/// A code that is made at `now` to live `validity` milliseconds expires
/// exactly `validity` after `now`. Where `validity` is not zero the code is
/// not yet expired at `now`, and submitting it at `now` is valid.
pub proof fn law_rotation_freshness(code: Seq<char>, now: i64, validity: u64)
    requires
        expiry(now, validity) is Some,
    ensures
        expiry(now, validity)->Some_0 - now == validity,
        validity > 0 ==> now < expiry(now, validity)->Some_0,
        validity > 0 ==> verdict(
            CodeDetailsView::Active(
                ActiveCodeView { code, expires_at: expiry(now, validity)->Some_0 },
            ),
            code,
            now,
        ) == CodeVerdict::Valid,
{
    crate::text::lemma_same_ignoring_case_is_equivalence(code, code, code);
}

/// After two codes have been stored for a course one after the other, only
/// the second counts: submitting the first is never valid, and is an invalid
/// code for as long as the second has not expired. This supposes that the
/// two codes differ by more than ASCII case.
pub proof fn law_rotation_overwrite(
    held: CodeDetailsView,
    first: ActiveCodeView,
    second: ActiveCodeView,
    now: i64,
)
    requires
        !(held is UnknownCourse),
        !same_ignoring_case(first.code, second.code),
    ensures
        stored(stored(held, first), second) == CodeDetailsView::Active(second),
        verdict(stored(stored(held, first), second), first.code, now) != CodeVerdict::Valid,
        now < second.expires_at ==> verdict(stored(stored(held, first), second), first.code, now)
            == CodeVerdict::InvalidCode,
{
    crate::text::lemma_same_ignoring_case_is_equivalence(first.code, second.code, first.code);
}

/// The steps of a submission come in one order only. A device is claimed
/// only for a submission that was just received and whose code is valid; the
/// student is checked only after the device was claimed; a record is made
/// only after the student was found absent; the count is read only after the
/// record was made; the broadcast goes out only after the count was read; and
/// success is answered only after the broadcast. The path never asks for the
/// code a second time, and it has ended exactly when the client is answered.
pub proof fn law_steps_in_order(state: SubmissionState, s: SubmissionView, now: i64, reply: ReplyView)
    ensures
        ({
            let (next, command) = step(state, s, now, reply);
            &&& !(command is FetchCode)
            &&& command is ClaimDevice ==> state == SubmissionState::Received && reply is Code
                && verdict(reply->Code_0, s.confirmation_code, now) == CodeVerdict::Valid
            &&& command is CheckStudent ==> state == SubmissionState::CodeChecked && reply
                == ReplyView::Claim(ClaimOutcome::Claimed)
            &&& command is Record ==> state == SubmissionState::DeviceClaimed && reply
                == ReplyView::StudentSeen(false)
            &&& command is CountToday ==> state == SubmissionState::StudentChecked && reply
                is Recorded
            &&& command is Broadcast ==> state == SubmissionState::Recorded && reply is Count
            &&& (command is Finish && command->Finish_0 is Ok) ==> state
                == SubmissionState::Broadcasted && reply is Delivered && next
                == SubmissionState::Completed
            &&& command is Finish <==> next.is_terminal()
        }),
{
}

/// The outcomes of claiming `keys` one after the other, starting from the
/// claims in `taken`.
pub open spec fn claim_outcomes(taken: Set<DeviceClaim>, keys: Seq<DeviceClaim>) -> Seq<
    ClaimOutcome,
>
    decreases keys.len(),
{
    if keys.len() == 0 {
        Seq::empty()
    } else {
        seq![claim_outcome(taken, keys[0])] + claim_outcomes(
            taken.insert(keys[0]),
            keys.drop_first(),
        )
    }
}

/// However the attempts of several devices are interleaved, an attempt is
/// `Claimed` exactly when its triple was free at the start and no earlier
/// attempt was on the same triple.
pub proof fn law_first_claim_wins(taken: Set<DeviceClaim>, keys: Seq<DeviceClaim>)
    ensures
        claim_outcomes(taken, keys).len() == keys.len(),
        forall|i: int|
            0 <= i < keys.len() ==> (#[trigger] claim_outcomes(taken, keys)[i]
                == ClaimOutcome::Claimed <==> !taken.contains(keys[i]) && forall|j: int|
                0 <= j < i ==> keys[j] != keys[i]),
    decreases keys.len(),
{
    if keys.len() > 0 {
        let rest = keys.drop_first();
        let grown = taken.insert(keys[0]);
        law_first_claim_wins(grown, rest);
        let all = claim_outcomes(taken, keys);
        let tail = claim_outcomes(grown, rest);
        assert forall|i: int| 0 <= i < keys.len() implies (#[trigger] all[i]
            == ClaimOutcome::Claimed <==> !taken.contains(keys[i]) && forall|j: int|
            0 <= j < i ==> keys[j] != keys[i]) by {
            if i > 0 {
                assert(all[i] == tail[i - 1]);
                assert(rest[i - 1] == keys[i]);
                if tail[i - 1] == ClaimOutcome::Claimed {
                    assert forall|j: int| 0 <= j < i implies keys[j] != keys[i] by {
                        if j > 0 {
                            assert(rest[j - 1] == keys[j]);
                        }
                    }
                } else {
                    if !grown.contains(rest[i - 1]) {
                        let j = choose|j: int| 0 <= j < i - 1 && #[trigger] rest[j] == rest[i - 1];
                        assert(keys[j + 1] == keys[i]);
                    }
                }
            }
        }
    }
}

/// `attempts` attempts on one and the same triple.
pub open spec fn repeated(key: DeviceClaim, attempts: nat) -> Seq<DeviceClaim> {
    Seq::new(attempts, |i: int| key)
}

/// Of any number of attempts on one and the same free triple, exactly the
/// first is `Claimed` and every other is `AlreadyClaimed`.
pub proof fn law_one_claim_among_many(taken: Set<DeviceClaim>, key: DeviceClaim, attempts: nat)
    requires
        attempts >= 1,
        !taken.contains(key),
    ensures
        claim_outcomes(taken, repeated(key, attempts)).len() == attempts,
        claim_outcomes(taken, repeated(key, attempts))[0] == ClaimOutcome::Claimed,
        forall|i: int|
            1 <= i < attempts ==> #[trigger] claim_outcomes(taken, repeated(key, attempts))[i]
                == ClaimOutcome::AlreadyClaimed,
{
    let keys = repeated(key, attempts);
    law_first_claim_wins(taken, keys);
    assert forall|i: int| 1 <= i < attempts implies #[trigger] claim_outcomes(taken, keys)[i]
        == ClaimOutcome::AlreadyClaimed by {
        assert(keys[0] == keys[i]);
    }
}

/// A student who was marked present is not marked present again on the same
/// day for the same course: a later submission for the same student never
/// completes and adds no record, whatever the tables have gained meanwhile.
/// Where its code is accepted it ends in a conflict.
pub proof fn law_student_counted_once(
    details: CodeDetailsView,
    claims: Set<DeviceClaim>,
    records: Seq<RecordView>,
    first: SubmissionView,
    at: i64,
    later_details: CodeDetailsView,
    later_claims: Set<DeviceClaim>,
    later_records: Seq<RecordView>,
    second: SubmissionView,
    later: i64,
)
    requires
        outcome(details, claims, records, first, at) == SubmissionState::Completed,
        second.course_id == first.course_id,
        second.student_id == first.student_id,
        day_of(later) == day_of(at),
    ensures
        ({
            let held = records_after(SubmissionState::Completed, records, first, at)
                + later_records;
            let end = outcome(later_details, later_claims, held, second, later);
            &&& end != SubmissionState::Completed
            &&& records_after(end, held, second, later) == held
            &&& verdict(later_details, second.confirmation_code, later) == CodeVerdict::Valid
                ==> answer_for(end, second) is Err && answer_for(end, second)->Err_0 is Conflict
        }),
{
    let added = record_of(first, at, records.len() as int + 1);
    let held = records.push(added) + later_records;
    assert(held[records.len() as int] == added);
    assert(on_day(held[records.len() as int], second.course_id, day_of(later) as i64));
    assert(students_present(held, second.course_id, day_of(later) as i64).contains(
        second.student_id,
    ));
}

/// A submission that completes raises the count of its course and day by
/// exactly one; a submission that does not complete leaves every count as it
/// was.
pub proof fn law_count_follows_completions(
    details: CodeDetailsView,
    claims: Set<DeviceClaim>,
    records: Seq<RecordView>,
    s: SubmissionView,
    now: i64,
    course_id: u128,
    day: i64,
)
    ensures
        ({
            let end = outcome(details, claims, records, s, now);
            let held = records_after(end, records, s, now);
            present_count(held, course_id, day) == if end == SubmissionState::Completed
                && course_id == s.course_id && day == day_of(now) {
                present_count(records, course_id, day) + 1
            } else {
                present_count(records, course_id, day)
            }
        }),
{
    let end = outcome(details, claims, records, s, now);
    if end == SubmissionState::Completed {
        let added = record_of(s, now, records.len() as int + 1);
        lemma_students_present_push(records, added, course_id, day);
        lemma_students_present_finite(records, course_id, day);
    }
}

/// When every record is of the course and the day and no two records are of
/// the same student, the count is the number of records.
pub proof fn law_count_of_distinct_students(records: Seq<RecordView>, course_id: u128, day: i64)
    requires
        forall|i: int| 0 <= i < records.len() ==> on_day(#[trigger] records[i], course_id, day),
        forall|i: int, j: int|
            0 <= i < j < records.len() ==> (#[trigger] records[i]).student_id
                != (#[trigger] records[j]).student_id,
    ensures
        present_count(records, course_id, day) == records.len(),
    decreases records.len(),
{
    if records.len() == 0 {
        assert(students_present(records, course_id, day) =~= Set::<Seq<char>>::empty());
    } else {
        let front = records.drop_last();
        let last = records.last();
        assert(front.push(last) =~= records);
        assert forall|i: int| 0 <= i < front.len() implies on_day(
            #[trigger] front[i],
            course_id,
            day,
        ) by {
            assert(front[i] == records[i]);
        }
        assert forall|i: int, j: int| 0 <= i < j < front.len() implies (#[trigger] front[i]).student_id
            != (#[trigger] front[j]).student_id by {
            assert(front[i] == records[i] && front[j] == records[j]);
        }
        law_count_of_distinct_students(front, course_id, day);
        lemma_students_present_push(front, last, course_id, day);
        lemma_students_present_finite(front, course_id, day);
        assert(!students_present(front, course_id, day).contains(last.student_id)) by {
            if students_present(front, course_id, day).contains(last.student_id) {
                let i = choose|i: int|
                    0 <= i < front.len() && on_day(#[trigger] front[i], course_id, day)
                        && front[i].student_id == last.student_id;
                assert(records[i].student_id != records[records.len() - 1].student_id);
            }
        }
    }
}

/// A broadcast reaches exactly the members of the room it is for: a session
/// is named in the messages if and only if it is a member, no member is named
/// twice, and every message carries the text.
pub proof fn law_broadcast_reaches_the_room(
    out: Seq<Outgoing>,
    members: Set<usize>,
    text: Seq<char>,
    session_id: usize,
)
    requires
        fan_out(out, members, text),
    ensures
        members.contains(session_id) <==> exists|i: int|
            0 <= i < out.len() && (#[trigger] out[i]).session_id == session_id,
        forall|i: int, j: int|
            0 <= i < j < out.len() ==> (#[trigger] out[i]).session_id
                != (#[trigger] out[j]).session_id,
        forall|i: int| 0 <= i < out.len() ==> (#[trigger] out[i]).message.0@ == text,
{
    if exists|i: int| 0 <= i < out.len() && (#[trigger] out[i]).session_id == session_id {
        let i = choose|i: int| 0 <= i < out.len() && (#[trigger] out[i]).session_id == session_id;
        assert(members.contains(out[i].session_id));
    }
}

/// A broadcast to one course names nobody who follows only another: a
/// session that is not in the room gets nothing.
pub proof fn law_broadcast_keeps_to_the_room(
    out: Seq<Outgoing>,
    members: Set<usize>,
    text: Seq<char>,
    session_id: usize,
)
    requires
        fan_out(out, members, text),
        !members.contains(session_id),
    ensures
        forall|i: int| 0 <= i < out.len() ==> (#[trigger] out[i]).session_id != session_id,
{
    assert forall|i: int| 0 <= i < out.len() implies (#[trigger] out[i]).session_id
        != session_id by {
        assert(members.contains(out[i].session_id));
    }
}

/// A session that has left its room is not named in any later broadcast to
/// that room.
pub proof fn law_no_delivery_after_leaving(
    out: Seq<Outgoing>,
    members: Set<usize>,
    text: Seq<char>,
    session_id: usize,
)
    requires
        fan_out(out, members.remove(session_id), text),
    ensures
        forall|i: int| 0 <= i < out.len() ==> (#[trigger] out[i]).session_id != session_id,
{
    law_broadcast_keeps_to_the_room(out, members.remove(session_id), text, session_id);
}

/// The instant of the check that comes `checks` checks after a check at
/// `check`, for a joined session last heard from at `last_heard` and silent
/// since.
pub open spec fn check_after(last_heard: i64, check: int, checks: nat) -> int
    decreases checks,
{
    if checks == 0 {
        check
    } else {
        check_after(
            last_heard,
            next_check_due(true, last_heard, check as i64),
            (checks - 1) as nat,
        )
    }
}

/// A silent client is removed no later than the timeout after its last sign
/// of life. Take any check of a joined session that falls between the last
/// sign of life and the end of the timeout. The checks that follow it, each
/// at the instant the one before found due, lead to a check at exactly the
/// instant the timeout runs out. At that check the client counts as timed
/// out, so the session leaves its room and stops.
pub proof fn law_silent_client_is_evicted(last_heard: i64, first_check: i64)
    requires
        last_heard <= first_check <= last_heard + CLIENT_TIMEOUT <= i64::MAX,
    ensures
        exists|checks: nat|
            #[trigger] check_after(last_heard, first_check as int, checks) == last_heard
                + CLIENT_TIMEOUT,
        timed_out(last_heard, (last_heard + CLIENT_TIMEOUT) as i64),
        forall|now: i64| now - last_heard >= CLIENT_TIMEOUT ==> timed_out(last_heard, now),
    decreases last_heard + CLIENT_TIMEOUT - first_check,
{
    if first_check == last_heard + CLIENT_TIMEOUT {
        assert(check_after(last_heard, first_check as int, 0) == last_heard + CLIENT_TIMEOUT);
    } else {
        let next = next_check_due(true, last_heard, first_check);
        assert(first_check < next <= last_heard + CLIENT_TIMEOUT);
        law_silent_client_is_evicted(last_heard, next as i64);
        let rest = choose|checks: nat|
            #[trigger] check_after(last_heard, next, checks) == last_heard + CLIENT_TIMEOUT;
        assert(check_after(last_heard, first_check as int, rest + 1) == check_after(
            last_heard,
            next,
            rest,
        ));
    }
}

} // verus!
