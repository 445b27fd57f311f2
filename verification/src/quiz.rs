//! The record kept for each user, and the two operations on it.

use crate::feedback::{feedback_record, feedback_text, grade_answer, is_correct};
use crate::problem::{encode_operation, operands_in_range, record_of, Operator};
use vstd::prelude::*;

verus! {

/// The number of problems in a quiz.
pub const QUIZ_LEN: usize = 5;

/// The number of quizzes that a user may generate in all.
pub const MAX_ATTEMPTS: u64 = 5;

/// The points given for one correct answer.
pub const POINTS_PER_ANSWER: u64 = 4;

/// The points that one quiz can earn.
pub const POINTS_PER_QUIZ: u64 = 20;

/// Why an operation was rejected.
#[derive(Clone, Copy, Debug, PartialEq, Eq, Structural)]
pub enum QuizError {
    /// Five quizzes were generated already.
    QuotaExceeded,
    /// A quiz was generated and is not graded yet.
    QuizAlreadyOutstanding,
    /// There is no generated quiz waiting for answers.
    NoOutstandingQuiz,
}

impl QuizError {
    /// The text shown to the user.
    pub open spec fn message_of(self) -> Seq<char> {
        match self {
            QuizError::QuotaExceeded =>
                "You have already generated 5 tests. You finished your homework."@,
            QuizError::QuizAlreadyOutstanding =>
                "You have already generated a test. You can't generate another one until you solve it."@,
            QuizError::NoOutstandingQuiz =>
                "You have already submitted your answers. You can't submit again."@,
        }
    }

    /// The text shown to the user.
    pub fn message(self) -> (text: &'static str)
        ensures
            text@ == self.message_of(),
    {
        match self {
            QuizError::QuotaExceeded =>
                "You have already generated 5 tests. You finished your homework.",
            QuizError::QuizAlreadyOutstanding =>
                "You have already generated a test. You can't generate another one until you solve it.",
            QuizError::NoOutstandingQuiz =>
                "You have already submitted your answers. You can't submit again.",
        }
    }
}

/// Where a user stands.
#[derive(Clone, Copy, Debug, PartialEq, Eq, Structural)]
pub enum QuizState {
    /// No quiz is outstanding and another one may be generated.
    Idle,
    /// A quiz is generated and waits for its answers.
    QuizOutstanding,
    /// No quiz is outstanding and none may be generated any more.
    QuotaExhausted,
}

/// The three random numbers that one problem is made from: two operands,
/// each a single digit, and a selector whose remainder by four picks the
/// operator.
#[derive(Clone, Copy, Debug, PartialEq, Eq)]
pub struct Draw {
    pub operand1: u8,
    pub operand2: u8,
    pub selector: u8,
}

impl Draw {
    /// Both operands are single digits.
    pub open spec fn in_range(self) -> bool {
        self.operand1 <= 9 && self.operand2 <= 9
    }

    /// The record of the problem that the draw gives.
    pub open spec fn record(self) -> Seq<u8> {
        record_of(self.operand1, self.operand2, Operator::of_selector(self.selector))
    }

    /// Tells whether both operands are single digits.
    pub fn is_in_range(&self) -> (ok: bool)
        ensures
            ok == self.in_range(),
    {
        self.operand1 <= 9 && self.operand2 <= 9
    }
}

/// The records of a quiz, each as a sequence of bytes.
pub open spec fn quiz_view(quiz: [[u8; 6]; 5]) -> Seq<Seq<u8>> {
    Seq::new(5, |i: int| quiz@[i]@)
}

/// The quiz that five draws give, problem by problem.
pub open spec fn quiz_of(draws: Seq<Draw>) -> Seq<Seq<u8>> {
    Seq::new(5, |i: int| draws[i].record())
}

/// How many of the first `n` answers are correct for their records.
pub open spec fn count_correct(quiz: Seq<Seq<u8>>, answers: Seq<u8>, n: nat) -> nat
    decreases n,
{
    if n == 0 {
        0
    } else {
        let before = count_correct(quiz, answers, (n - 1) as nat);
        if is_correct(quiz[n - 1], answers[n - 1]) {
            before + 1
        } else {
            before
        }
    }
}

/// The feedback records for five answers, each as a sequence of bytes.
pub open spec fn feedback_of(quiz: Seq<Seq<u8>>, answers: Seq<u8>) -> Seq<Seq<u8>> {
    Seq::new(5, |i: int| feedback_text(is_correct(quiz[i], answers[i])))
}

/// The feedback records handed out, each as a sequence of bytes.
pub open spec fn feedback_view(feedback: [[u8; 12]; 5]) -> Seq<Seq<u8>> {
    Seq::new(5, |i: int| feedback@[i]@)
}

/// What is kept for one user.
#[derive(Clone, Copy, Debug, PartialEq, Eq)]
pub struct UserRecord {
    /// The points earned so far.
    pub score: u64,
    /// Whether a quiz is generated and not graded yet.
    pub can_submit: bool,
    /// The number of quizzes generated so far.
    pub attempts_used: u64,
    /// The quiz generated last. It means something only while `can_submit`
    /// holds.
    pub current_quiz: [[u8; 6]; 5],
}

impl UserRecord {
    /// The number of quizzes that were graded.
    pub open spec fn graded_quizzes(self) -> int {
        if self.can_submit { self.attempts_used - 1 } else { self.attempts_used as int }
    }

    /// What holds of every record that the operations of this module made:
    /// at most five quizzes were generated, an outstanding quiz is one of
    /// them and its operands are single digits, and no graded quiz earned
    /// more than twenty points.
    pub open spec fn wf(self) -> bool {
        &&& self.attempts_used <= MAX_ATTEMPTS
        &&& self.can_submit ==> self.attempts_used >= 1
        &&& self.score <= POINTS_PER_QUIZ * self.graded_quizzes()
        &&& self.can_submit ==> forall|i: int|
            0 <= i < 5 ==> operands_in_range(#[trigger] self.current_quiz@[i]@)
    }

    /// A record as it is made for a new user.
    pub open spec fn is_fresh(self) -> bool {
        &&& self.score == 0
        &&& !self.can_submit
        &&& self.attempts_used == 0
        &&& forall|i: int, j: int| 0 <= i < 5 && 0 <= j < 6 ==> self.current_quiz@[i]@[j] == 0
    }

    /// Where the user stands.
    pub open spec fn state_of(self) -> QuizState {
        if self.can_submit {
            QuizState::QuizOutstanding
        } else if self.attempts_used >= MAX_ATTEMPTS {
            QuizState::QuotaExhausted
        } else {
            QuizState::Idle
        }
    }

    /// Why a quiz cannot be generated now, if it cannot. The quota is looked
    /// at first.
    pub open spec fn generate_error(self) -> Option<QuizError> {
        if self.attempts_used >= MAX_ATTEMPTS {
            Some(QuizError::QuotaExceeded)
        } else if self.can_submit {
            Some(QuizError::QuizAlreadyOutstanding)
        } else {
            None
        }
    }

    /// Why answers cannot be submitted now, if they cannot.
    pub open spec fn submit_error(self) -> Option<QuizError> {
        if self.can_submit { None } else { Some(QuizError::NoOutstandingQuiz) }
    }

    /// The record after `quiz` was generated for it.
    pub open spec fn with_quiz(self, quiz: [[u8; 6]; 5]) -> UserRecord {
        UserRecord {
            score: self.score,
            can_submit: true,
            attempts_used: (self.attempts_used + 1) as u64,
            current_quiz: quiz,
        }
    }

    /// The record after `answers` were graded against its quiz: four points
    /// for each correct answer, and the quiz is closed.
    pub open spec fn graded(self, answers: Seq<u8>) -> UserRecord {
        UserRecord {
            score: (self.score + POINTS_PER_ANSWER * count_correct(
                quiz_view(self.current_quiz),
                answers,
                5,
            )) as u64,
            can_submit: false,
            attempts_used: self.attempts_used,
            current_quiz: self.current_quiz,
        }
    }

    /// The record of a new user: no points, no quiz, no attempt used.
    pub fn new() -> (record: UserRecord)
        ensures
            record.is_fresh(),
            record.wf(),
    {
        UserRecord { score: 0, can_submit: false, attempts_used: 0, current_quiz: [[0u8; 6]; 5] }
    }

    /// Sets the record back to that of a new user.
    pub fn init(&mut self)
        ensures
            final(self).is_fresh(),
            final(self).wf(),
    {
        *self = UserRecord::new();
    }

    /// Tells whether the record is well formed.
    pub fn is_well_formed(&self) -> (ok: bool)
        ensures
            ok == self.wf(),
    {
        if self.attempts_used > MAX_ATTEMPTS {
            return false;
        }
        if self.can_submit && self.attempts_used == 0 {
            return false;
        }
        let graded: u64 = if self.can_submit { self.attempts_used - 1 } else { self.attempts_used };
        if self.score > POINTS_PER_QUIZ * graded {
            return false;
        }
        if !self.can_submit {
            return true;
        }
        let mut i: usize = 0;
        while i < QUIZ_LEN
            invariant
                0 <= i <= 5,
                self.can_submit,
                forall|k: int| 0 <= k < i ==> operands_in_range(#[trigger] self.current_quiz@[k]@),
            decreases 5 - i,
        {
            if self.current_quiz[i][0] > 9 || self.current_quiz[i][4] > 9 {
                assert(!operands_in_range(self.current_quiz@[i as int]@));
                return false;
            }
            i += 1;
        }
        true
    }

    /// Tells where the user stands.
    pub fn state(&self) -> (state: QuizState)
        ensures
            state == self.state_of(),
    {
        if self.can_submit {
            QuizState::QuizOutstanding
        } else if self.attempts_used >= MAX_ATTEMPTS {
            QuizState::QuotaExhausted
        } else {
            QuizState::Idle
        }
    }

    /// Says why a quiz cannot be generated now, if it cannot.
    pub fn generation_refusal(&self) -> (refusal: Option<QuizError>)
        ensures
            refusal == self.generate_error(),
    {
        if self.attempts_used >= MAX_ATTEMPTS {
            Some(QuizError::QuotaExceeded)
        } else if self.can_submit {
            Some(QuizError::QuizAlreadyOutstanding)
        } else {
            None
        }
    }

    /// Says why answers cannot be submitted now, if they cannot.
    pub fn submission_refusal(&self) -> (refusal: Option<QuizError>)
        ensures
            refusal == self.submit_error(),
    {
        if self.can_submit {
            None
        } else {
            Some(QuizError::NoOutstandingQuiz)
        }
    }

    /// Generates a quiz from five draws, keeps it as the outstanding quiz
    /// and hands it out. Rejected, with the record unchanged, when the quota
    /// is used up or a quiz is outstanding.
    pub fn generate_test(&mut self, draws: &[Draw; 5]) -> (result: Result<[[u8; 6]; 5], QuizError>)
        requires
            forall|i: int| 0 <= i < 5 ==> (#[trigger] draws@[i]).in_range(),
        ensures
            match result {
                Ok(quiz) => {
                    &&& old(self).generate_error() is None
                    &&& quiz_view(quiz) == quiz_of(draws@)
                    &&& *final(self) == old(self).with_quiz(quiz)
                },
                Err(error) => {
                    &&& old(self).generate_error() == Some(error)
                    &&& *final(self) == *old(self)
                },
            },
            old(self).wf() ==> final(self).wf(),
    {
        if let Some(error) = self.generation_refusal() {
            return Err(error);
        }
        let mut operations: [[u8; 6]; 5] = [[0u8; 6]; 5];
        let mut i: usize = 0;
        while i < QUIZ_LEN
            invariant
                0 <= i <= 5,
                forall|k: int| 0 <= k < 5 ==> (#[trigger] draws@[k]).in_range(),
                forall|k: int| 0 <= k < i ==> (#[trigger] operations@[k])@ == draws@[k].record(),
            decreases 5 - i,
        {
            let draw = draws[i];
            let operator = Operator::from_selector(draw.selector);
            let operation = encode_operation(draw.operand1, draw.operand2, operator);
            operations[i] = operation;
            i += 1;
        }
        assert(quiz_view(operations) =~= quiz_of(draws@));
        self.current_quiz = operations;
        self.attempts_used = self.attempts_used + 1;
        self.can_submit = true;
        Ok(operations)
    }

    /// Grades five answers against the outstanding quiz, adds four points
    /// for each correct one, closes the quiz and hands out the feedback.
    /// The sixth byte of `answers` is not read. Rejected, with the record
    /// unchanged, when no quiz is outstanding.
    pub fn submit_test(&mut self, answers: [u8; 6]) -> (result: Result<[[u8; 12]; 5], QuizError>)
        requires
            old(self).wf(),
        ensures
            match result {
                Ok(feedback) => {
                    &&& old(self).submit_error() is None
                    &&& feedback_view(feedback) == feedback_of(
                        quiz_view(old(self).current_quiz),
                        answers@,
                    )
                    &&& *final(self) == old(self).graded(answers@)
                },
                Err(error) => {
                    &&& old(self).submit_error() == Some(error)
                    &&& *final(self) == *old(self)
                },
            },
            final(self).wf(),
    {
        if let Some(error) = self.submission_refusal() {
            return Err(error);
        }
        let ghost quiz = quiz_view(self.current_quiz);
        let mut feedback: [[u8; 12]; 5] = [[0u8; 12]; 5];
        let mut score: u64 = self.score;
        let mut i: usize = 0;
        while i < QUIZ_LEN
            invariant
                0 <= i <= 5,
                self.wf(),
                self.can_submit,
                quiz == quiz_view(self.current_quiz),
                count_correct(quiz, answers@, i as nat) <= i,
                score == self.score + 4 * count_correct(quiz, answers@, i as nat),
                forall|k: int|
                    0 <= k < i ==> (#[trigger] feedback@[k])@ == feedback_text(
                        is_correct(quiz[k], answers@[k]),
                    ),
            decreases 5 - i,
        {
            let correct = grade_answer(&self.current_quiz[i], answers[i]);
            if correct {
                score = score + POINTS_PER_ANSWER;
            }
            feedback[i] = feedback_record(correct);
            i += 1;
        }
        assert(feedback_view(feedback) =~= feedback_of(quiz, answers@));
        self.score = score;
        self.can_submit = false;
        Ok(feedback)
    }
}

} // verus!
