//! What holds of the engine as a whole, stated over the models that the
//! contracts of the other modules use.

use crate::feedback::{byte_of, feedback_text, is_correct, signed_value};
use crate::problem::{operands_in_range, record_of, solve, Operator, Problem};
use crate::quiz::{count_correct, feedback_of, quiz_view, QuizError, QuizState, UserRecord};
use vstd::prelude::*;

verus! {

/// The record of a user after `n` rounds, each a generated quiz followed by
/// a submission of answers.
pub open spec fn after_rounds(
    start: UserRecord,
    quizzes: Seq<[[u8; 6]; 5]>,
    answers: Seq<Seq<u8>>,
    n: nat,
) -> UserRecord
    decreases n,
{
    if n == 0 {
        start
    } else {
        after_rounds(start, quizzes, answers, (n - 1) as nat).with_quiz(quizzes[n - 1]).graded(
            answers[n - 1],
        )
    }
}

/// Solving the record of a problem gives the exact value of the problem:
/// the sum, the difference, the product, or the quotient rounded towards
/// zero by the divisor as written, which is never zero.
pub proof fn law_solve_encoded(operand1: u8, operand2: u8, operator: Operator)
    requires
        operand1 <= 9,
        operand2 <= 9,
    ensures
        operands_in_range(record_of(operand1, operand2, operator)),
        -128 <= solve(record_of(operand1, operand2, operator)) <= 127,
        operator == Operator::Add ==> solve(record_of(operand1, operand2, operator)) == operand1
            + operand2,
        operator == Operator::Sub ==> solve(record_of(operand1, operand2, operator)) == operand1
            - operand2,
        operator == Operator::Mul ==> solve(record_of(operand1, operand2, operator)) == operand1
            * operand2,
        operator == Operator::Div ==> ({
            let divisor: int = if operand2 == 0 { 1 } else { operand2 as int };
            let quotient = solve(record_of(operand1, operand2, operator));
            &&& record_of(operand1, operand2, operator)[4] == divisor
            &&& divisor != 0
            &&& divisor * quotient <= operand1 < divisor * (quotient + 1)
        }),
{
    let record = record_of(operand1, operand2, operator);
    let left = operand1 as int;
    let right = record[4] as int;
    if operator == Operator::Mul {
        assert(0 <= left * right <= 81) by (nonlinear_arith)
            requires
                0 <= left <= 9,
                0 <= right <= 9,
        ;
    }
    if operator == Operator::Div {
        let quotient = left / right;
        assert(right * quotient <= left < right * (quotient + 1) && 0 <= quotient <= left)
            by (nonlinear_arith)
            requires
                0 <= left,
                0 < right,
                quotient == left / right,
        ;
    }
}

/// A well-formed problem is read back from its record, and a record that
/// can be read is the record of the problem read, with the same value.
pub proof fn law_record_round_trip(problem: Problem, record: Seq<u8>)
    ensures
        problem.wf() ==> Problem::parse(problem.record()) == Some(problem),
        problem.wf() ==> solve(problem.record()) == problem.value(),
        Problem::parse(record) is Some ==> {
            &&& Problem::parse(record)->0.wf()
            &&& Problem::parse(record)->0.record() == record
            &&& Problem::parse(record)->0.value() == solve(record)
        },
{
    if Problem::parse(record) is Some {
        assert(Problem::parse(record)->0.record() =~= record);
    }
}

/// After five rounds a new user has used all five attempts, and a sixth
/// quiz is refused because the quota is used up. Up to then every quiz
/// could be generated and every submission was taken.
pub proof fn law_quota_after_five_rounds(
    start: UserRecord,
    quizzes: Seq<[[u8; 6]; 5]>,
    answers: Seq<Seq<u8>>,
)
    requires
        start.is_fresh(),
        quizzes.len() == 5,
        answers.len() == 5,
    ensures
        forall|n: nat|
            n < 5 ==> {
                let before = #[trigger] after_rounds(start, quizzes, answers, n);
                &&& before.attempts_used == n
                &&& before.generate_error() is None
                &&& before.with_quiz(quizzes[n as int]).submit_error() is None
            },
        after_rounds(start, quizzes, answers, 5).attempts_used == 5,
        after_rounds(start, quizzes, answers, 5).generate_error() == Some(
            QuizError::QuotaExceeded,
        ),
{
    reveal_with_fuel(after_rounds, 6);
    assert forall|n: nat| n < 5 implies {
        let before = #[trigger] after_rounds(start, quizzes, answers, n);
        &&& before.attempts_used == n
        &&& before.generate_error() is None
        &&& before.with_quiz(quizzes[n as int]).submit_error() is None
    } by {
        assert(n == 0 || n == 1 || n == 2 || n == 3 || n == 4);
    }
}

/// The three states and the moves between them: a quiz can be generated
/// exactly in the idle state and leads to the outstanding one; answers are
/// taken exactly in the outstanding state and lead back to the idle state,
/// or, after the fifth quiz, to the exhausted one.
pub proof fn law_state_machine(record: UserRecord, quiz: [[u8; 6]; 5], answers: Seq<u8>)
    requires
        record.wf(),
    ensures
        record.generate_error() is None <==> record.state_of() == QuizState::Idle,
        record.submit_error() is None <==> record.state_of() == QuizState::QuizOutstanding,
        record.state_of() == QuizState::Idle ==> record.with_quiz(quiz).state_of()
            == QuizState::QuizOutstanding,
        record.state_of() == QuizState::QuizOutstanding ==> record.graded(answers).state_of() == (
        if record.attempts_used == 5 {
            QuizState::QuotaExhausted
        } else {
            QuizState::Idle
        }),
        record.state_of() == QuizState::QuotaExhausted ==> record.generate_error() == Some(
            QuizError::QuotaExceeded,
        ) && record.submit_error() == Some(QuizError::NoOutstandingQuiz),
{
}

/// While a quiz is outstanding no other can be generated, and the
/// refused call uses no attempt.
pub proof fn law_outstanding_quiz_blocks_generation(record: UserRecord, quiz: [[u8; 6]; 5])
    requires
        record.generate_error() is None,
    ensures
        record.with_quiz(quiz).generate_error() is Some,
        record.with_quiz(quiz).attempts_used == record.attempts_used + 1,
{
}

/// A second quiz asked for right after the first is refused because a quiz
/// is outstanding, provided that the first was not the user's last one.
pub proof fn law_second_generate_rejected(record: UserRecord, quiz: [[u8; 6]; 5])
    requires
        record.generate_error() is None,
        record.attempts_used < 4,
    ensures
        record.with_quiz(quiz).generate_error() == Some(QuizError::QuizAlreadyOutstanding),
        record.with_quiz(quiz).attempts_used == record.attempts_used + 1,
{
}

/// Answers are refused for a new user and right after a submission.
pub proof fn law_submit_needs_outstanding_quiz(record: UserRecord, answers: Seq<u8>)
    ensures
        record.is_fresh() ==> record.submit_error() == Some(QuizError::NoOutstandingQuiz),
        record.graded(answers).submit_error() == Some(QuizError::NoOutstandingQuiz),
{
}

/// A submission adds four points for each correct answer: twenty when all
/// five are correct, none when all are wrong, and never takes points away.
/// Whatever the answers, the quiz is closed afterwards.
pub proof fn law_score_accounting(record: UserRecord, answers: Seq<u8>)
    requires
        record.wf(),
        record.can_submit,
    ensures
        !record.graded(answers).can_submit,
        record.graded(answers).attempts_used == record.attempts_used,
        record.graded(answers).wf(),
        record.graded(answers).score == record.score + 4 * count_correct(
            quiz_view(record.current_quiz),
            answers,
            5,
        ),
        record.score <= record.graded(answers).score <= record.score + 20,
        (forall|i: int|
            0 <= i < 5 ==> is_correct(#[trigger] quiz_view(record.current_quiz)[i], answers[i]))
            ==> record.graded(answers).score == record.score + 20,
        (forall|i: int|
            0 <= i < 5 ==> !is_correct(#[trigger] quiz_view(record.current_quiz)[i], answers[i]))
            ==> record.graded(answers).score == record.score,
{
    let quiz = quiz_view(record.current_quiz);
    reveal_with_fuel(count_correct, 6);
    assert(count_correct(quiz, answers, 5) <= 5);
    if forall|i: int| 0 <= i < 5 ==> is_correct(#[trigger] quiz[i], answers[i]) {
        assert(is_correct(quiz[0], answers[0]));
        assert(is_correct(quiz[1], answers[1]));
        assert(is_correct(quiz[2], answers[2]));
        assert(is_correct(quiz[3], answers[3]));
        assert(is_correct(quiz[4], answers[4]));
    }
    if forall|i: int| 0 <= i < 5 ==> !is_correct(#[trigger] quiz[i], answers[i]) {
        assert(!is_correct(quiz[0], answers[0]));
        assert(!is_correct(quiz[1], answers[1]));
        assert(!is_correct(quiz[2], answers[2]));
        assert(!is_correct(quiz[3], answers[3]));
        assert(!is_correct(quiz[4], answers[4]));
    }
}

/// No user ever holds more than a hundred points or more than five
/// attempts.
pub proof fn law_score_is_bounded(record: UserRecord)
    requires
        record.wf(),
    ensures
        record.attempts_used <= 5,
        record.score <= 100,
{
}

/// The value of a problem, written as an answer byte, is a correct answer
/// to that problem.
pub proof fn law_answer_round_trip(record: Seq<u8>)
    requires
        operands_in_range(record),
    ensures
        -128 <= solve(record) <= 127,
        signed_value(byte_of(solve(record))) == solve(record),
        is_correct(record, byte_of(solve(record))),
{
    let left = record[0] as int;
    let right = record[4] as int;
    assert(0 <= left * right <= 81) by (nonlinear_arith)
        requires
            0 <= left <= 9,
            0 <= right <= 9,
    ;
    if right != 0 {
        assert(0 <= left / right <= left) by (nonlinear_arith)
            requires
                0 <= left,
                0 < right,
        ;
    }
}

/// Answering every problem of the outstanding quiz with its own value
/// earns the feedback for a correct answer in every place, and twenty
/// points.
pub proof fn law_quiz_round_trip(record: UserRecord, answers: Seq<u8>)
    requires
        record.wf(),
        record.can_submit,
        forall|i: int|
            0 <= i < 5 ==> answers[i] == byte_of(solve(#[trigger] quiz_view(record.current_quiz)[i])),
    ensures
        forall|i: int|
            0 <= i < 5 ==> #[trigger] feedback_of(quiz_view(record.current_quiz), answers)[i]
                == feedback_text(true),
        record.graded(answers).score == record.score + 20,
{
    let quiz = quiz_view(record.current_quiz);
    assert forall|i: int| 0 <= i < 5 implies is_correct(#[trigger] quiz[i], answers[i]) by {
        assert(operands_in_range(record.current_quiz@[i]@));
        law_answer_round_trip(quiz[i]);
    }
    law_score_accounting(record, answers);
}

} // verus!
