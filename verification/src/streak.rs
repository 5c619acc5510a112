//! The per-user eligibility record and the day-keyed transition that advances
//! or resets a quiz streak. The transition is the authority over the record:
//! it accepts at most one completion per day index and keeps every cumulative
//! counter monotone.

use vstd::prelude::*;

verus! {

/// Day indices are unix timestamps divided by this.
pub const SECONDS_PER_DAY: u64 = 86400;

/// Rejection raised by the transition.
#[derive(Clone, Copy, Debug, PartialEq, Eq, Structural)]
pub enum QuizError {
    /// The record has already accepted a completion for this day index.
    AlreadyPlayedToday,
}

/// One user's quiz eligibility record, keyed by the user's wallet address.
#[derive(Clone, Debug, PartialEq, Eq)]
pub struct QuizUserData {
    /// Wallet address of the owner; immutable after creation.
    pub user_wallet: String,
    /// Day index of the last accepted completion.
    pub last_quiz_day: u64,
    /// Count of consecutive accepted days.
    pub streak: u8,
    /// Cumulative number of accepted completions.
    pub total_quizzes: u64,
    /// Cumulative number of questions answered.
    pub total_questions: u64,
    /// Cumulative number of correct answers.
    pub correct_answers: u64,
    /// Cumulative reward units earned.
    pub earned_tokens: u64,
}

/// The streak value the transition assigns when a completion on day `d`
/// with goal `goal` is accepted: a streak that has reached the goal restarts
/// from a zero baseline, a consecutive day increments, anything else resets
/// to one.
pub open spec fn next_streak(s: QuizUserData, d: u64, goal: u8) -> int {
    if s.last_quiz_day + 1 == d {
        (if s.streak == goal {
            0int
        } else {
            s.streak as int
        }) + 1
    } else {
        1int
    }
}

/// The record after a completion on day `d` is offered to `s`: unchanged when
/// `d` is the day already recorded, otherwise counters grow by the deltas,
/// the streak moves to `next_streak`, and the day is recorded.
pub open spec fn spec_apply(
    s: QuizUserData,
    total_questions: u64,
    correct_answers: u64,
    earned_tokens: u64,
    goal: u8,
    d: u64,
) -> QuizUserData {
    if s.last_quiz_day == d {
        s
    } else {
        QuizUserData {
            user_wallet: s.user_wallet,
            last_quiz_day: d,
            streak: next_streak(s, d, goal) as u8,
            total_quizzes: (s.total_quizzes + 1) as u64,
            total_questions: (s.total_questions + total_questions) as u64,
            correct_answers: (s.correct_answers + correct_answers) as u64,
            earned_tokens: (s.earned_tokens + earned_tokens) as u64,
        }
    }
}

/// A brand-new record for `user_wallet`: no day recorded, every counter
/// zero.
pub open spec fn fresh_record(user_wallet: String) -> QuizUserData {
    QuizUserData {
        user_wallet,
        last_quiz_day: 0,
        streak: 0,
        total_quizzes: 0,
        total_questions: 0,
        correct_answers: 0,
        earned_tokens: 0,
    }
}

/// Create-if-absent: an existing record is returned untouched, a missing one
/// is created with zeroed counters for `user_wallet`.
pub fn initialize(existing: Option<QuizUserData>, user_wallet: String) -> (r: QuizUserData)
    ensures
        existing matches Some(s) ==> r == s,
        existing is None ==> r == fresh_record(user_wallet),
{
    match existing {
        Some(s) => s,
        None => QuizUserData {
            user_wallet,
            last_quiz_day: 0,
            streak: 0,
            total_quizzes: 0,
            total_questions: 0,
            correct_answers: 0,
            earned_tokens: 0,
        },
    }
}

/// Advance the record for a completion on `current_day`.
///
/// At most one completion per day is accepted: a repeated day is rejected and
/// the record is left untouched. On acceptance the cumulative counters grow by
/// the event's deltas, the streak is advanced by `next_streak` (goal reset
/// before the consecutive-day check), and the returned flag says whether the
/// new streak equals `streak_days`, the configured goal.
pub fn update_quiz_results(
    user_data: &mut QuizUserData,
    total_questions: u64,
    correct_answers: u64,
    earned_tokens: u64,
    streak_days: u8,
    current_day: u64,
) -> (r: Result<bool, QuizError>)
    requires
        old(user_data).last_quiz_day != current_day ==> {
            &&& old(user_data).total_quizzes + 1 <= u64::MAX
            &&& old(user_data).total_questions + total_questions <= u64::MAX
            &&& old(user_data).correct_answers + correct_answers <= u64::MAX
            &&& old(user_data).earned_tokens + earned_tokens <= u64::MAX
            &&& old(user_data).last_quiz_day < u64::MAX
        },
        old(user_data).last_quiz_day + 1 == current_day ==> (old(user_data).streak == streak_days
            || old(user_data).streak < u8::MAX),
    ensures
        *final(user_data) == spec_apply(
            *old(user_data),
            total_questions,
            correct_answers,
            earned_tokens,
            streak_days,
            current_day,
        ),
        r is Ok <==> old(user_data).last_quiz_day != current_day,
        r matches Ok(goal_reached) ==> goal_reached == (final(user_data).streak == streak_days),
        r is Err ==> r matches Err(QuizError::AlreadyPlayedToday),
{
    if user_data.last_quiz_day == current_day {
        return Err(QuizError::AlreadyPlayedToday);
    }

    user_data.total_quizzes = user_data.total_quizzes + 1;
    user_data.total_questions = user_data.total_questions + total_questions;
    user_data.correct_answers = user_data.correct_answers + correct_answers;
    user_data.earned_tokens = user_data.earned_tokens + earned_tokens;

    if user_data.streak == streak_days {
        user_data.streak = 0;
    }

    if user_data.last_quiz_day + 1 == current_day {
        user_data.streak = user_data.streak + 1;
    } else {
        user_data.streak = 1;
    }

    let goal_reached = user_data.streak == streak_days;

    user_data.last_quiz_day = current_day;

    Ok(goal_reached)
}

/// The event recorded when a completion brings a streak to its goal.
#[derive(Clone, Debug, PartialEq, Eq)]
pub struct StreakAchieved {
    pub user: String,
    pub streak: u8,
}

/// The goal event for a freshly advanced record: one is recorded exactly
/// when the transition reported the goal reached.
pub fn streak_achieved(user_data: &QuizUserData, goal_reached: bool) -> (r: Option<StreakAchieved>)
    ensures
        goal_reached ==> (r matches Some(e) && e.user == user_data.user_wallet && e.streak
            == user_data.streak),
        !goal_reached ==> r is None,
{
    if goal_reached {
        Some(StreakAchieved { user: user_data.user_wallet.clone(), streak: user_data.streak })
    } else {
        None
    }
}

/// Offering the same day twice changes nothing more than offering it once:
/// the transition is idempotent on the day key.
pub proof fn lemma_apply_idempotent_on_day(
    s: QuizUserData,
    total_questions: u64,
    correct_answers: u64,
    earned_tokens: u64,
    goal: u8,
    d: u64,
)
    ensures
        spec_apply(
            spec_apply(s, total_questions, correct_answers, earned_tokens, goal, d),
            total_questions,
            correct_answers,
            earned_tokens,
            goal,
            d,
        ) == spec_apply(s, total_questions, correct_answers, earned_tokens, goal, d),
{
}

/// A record whose streak stands at the goal starts over on the next accepted
/// day: the new streak is exactly one, and so never exceeds a goal of at
/// least one.
pub proof fn lemma_goal_reset_baseline(
    s: QuizUserData,
    total_questions: u64,
    correct_answers: u64,
    earned_tokens: u64,
    goal: u8,
    d: u64,
)
    requires
        s.streak == goal,
        s.last_quiz_day != d,
    ensures
        spec_apply(s, total_questions, correct_answers, earned_tokens, goal, d).streak == 1,
        goal >= 1 ==> spec_apply(s, total_questions, correct_answers, earned_tokens, goal,
            d).streak <= goal,
{
}

/// A gap of more than one day resets the streak to exactly one, whatever it
/// was before.
pub proof fn lemma_gap_resets(
    s: QuizUserData,
    total_questions: u64,
    correct_answers: u64,
    earned_tokens: u64,
    goal: u8,
    d: u64,
)
    requires
        d > s.last_quiz_day + 1,
    ensures
        spec_apply(s, total_questions, correct_answers, earned_tokens, goal, d).streak == 1,
{
}

/// A consecutive day with the goal not yet reached increments the streak by
/// exactly one.
pub proof fn lemma_consecutive_increments(
    s: QuizUserData,
    total_questions: u64,
    correct_answers: u64,
    earned_tokens: u64,
    goal: u8,
    d: u64,
)
    requires
        d == s.last_quiz_day + 1,
        s.streak < goal,
    ensures
        spec_apply(s, total_questions, correct_answers, earned_tokens, goal, d).streak == s.streak
            + 1,
{
}

/// A streak never leaves the range `0 ..= goal`: the transition keeps the
/// bound whatever day is offered.
pub proof fn lemma_streak_bounded(
    s: QuizUserData,
    total_questions: u64,
    correct_answers: u64,
    earned_tokens: u64,
    goal: u8,
    d: u64,
)
    requires
        s.streak <= goal,
        goal >= 1,
    ensures
        spec_apply(s, total_questions, correct_answers, earned_tokens, goal, d).streak <= goal,
{
}

/// The day index of a timestamp: whole days since the epoch.
pub fn day_index(timestamp: i64) -> (d: u64)
    requires
        timestamp >= 0,
    ensures
        d == timestamp / (SECONDS_PER_DAY as i64),
{
    (timestamp / (SECONDS_PER_DAY as i64)) as u64
}

} // verus!
