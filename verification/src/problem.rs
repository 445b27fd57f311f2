//! Problem records: two single-digit operands and an operator in six bytes.

use crate::digits::last_digit;
use vstd::prelude::*;

verus! {

/// The ASCII space that separates the operator from its operands.
pub const SPACE: u8 = 32;

/// The ASCII codes of `+`, `-`, `*` and `/`.
pub const PLUS: u8 = 43;

pub const MINUS: u8 = 45;

pub const STAR: u8 = 42;

pub const SLASH: u8 = 47;

/// The four arithmetic operators of a quiz.
#[derive(Clone, Copy, Debug, PartialEq, Eq, Structural)]
pub enum Operator {
    Add,
    Sub,
    Mul,
    Div,
}

impl Operator {
    /// The ASCII byte that stands for the operator in a record.
    pub open spec fn symbol_of(self) -> u8 {
        match self {
            Operator::Add => PLUS,
            Operator::Sub => MINUS,
            Operator::Mul => STAR,
            Operator::Div => SLASH,
        }
    }

    /// The operator that a selector picks: its remainder by four counts
    /// through `+`, `-`, `*`, `/`.
    pub open spec fn of_selector(selector: u8) -> Operator {
        if selector % 4 == 0 {
            Operator::Add
        } else if selector % 4 == 1 {
            Operator::Sub
        } else if selector % 4 == 2 {
            Operator::Mul
        } else {
            Operator::Div
        }
    }

    /// The operator whose symbol is `symbol`, if there is one.
    pub open spec fn of_symbol(symbol: u8) -> Option<Operator> {
        if symbol == PLUS {
            Some(Operator::Add)
        } else if symbol == MINUS {
            Some(Operator::Sub)
        } else if symbol == STAR {
            Some(Operator::Mul)
        } else if symbol == SLASH {
            Some(Operator::Div)
        } else {
            None
        }
    }

    /// The value of `left <op> right` for operands that are not negative.
    /// The quotient is rounded down, and a division by zero is given the
    /// value 0.
    pub open spec fn eval(self, left: int, right: int) -> int {
        match self {
            Operator::Add => left + right,
            Operator::Sub => left - right,
            Operator::Mul => left * right,
            Operator::Div => if right == 0 { 0 } else { left / right },
        }
    }

    /// The right operand that is written down for `operand2`: a zero
    /// divisor becomes 1, everything else stays.
    pub open spec fn right_operand(self, operand2: u8) -> u8 {
        if self == Operator::Div && operand2 == 0 { 1 } else { operand2 }
    }

    /// The ASCII byte that stands for the operator in a record.
    pub fn symbol(self) -> (byte: u8)
        ensures
            byte == self.symbol_of(),
    {
        match self {
            Operator::Add => PLUS,
            Operator::Sub => MINUS,
            Operator::Mul => STAR,
            Operator::Div => SLASH,
        }
    }

    /// Picks the operator for a selector, by its remainder by four.
    pub fn from_selector(selector: u8) -> (operator: Operator)
        ensures
            operator == Operator::of_selector(selector),
    {
        match selector % 4 {
            0 => Operator::Add,
            1 => Operator::Sub,
            2 => Operator::Mul,
            _ => Operator::Div,
        }
    }

    /// Applies the operator to two single digits.
    pub fn apply(self, left: i8, right: i8) -> (result: i8)
        requires
            0 <= left <= 9,
            0 <= right <= 9,
        ensures
            result as int == self.eval(left as int, right as int),
    {
        match self {
            Operator::Add => left + right,
            Operator::Sub => left - right,
            Operator::Mul => {
                assert(0 <= left * right <= 81) by (nonlinear_arith)
                    requires
                        0 <= left <= 9,
                        0 <= right <= 9,
                ;
                left * right
            },
            Operator::Div => {
                if right == 0 {
                    0
                } else {
                    left / right
                }
            },
        }
    }

    /// Reads an operator from its symbol.
    pub fn from_symbol(symbol: u8) -> (operator: Option<Operator>)
        ensures
            operator == Operator::of_symbol(symbol),
    {
        if symbol == PLUS {
            Some(Operator::Add)
        } else if symbol == MINUS {
            Some(Operator::Sub)
        } else if symbol == STAR {
            Some(Operator::Mul)
        } else if symbol == SLASH {
            Some(Operator::Div)
        } else {
            None
        }
    }
}

/// One problem: a left operand, an operator and a right operand.
#[derive(Clone, Copy, Debug, PartialEq, Eq)]
pub struct Problem {
    pub left: u8,
    pub operator: Operator,
    pub right: u8,
}

impl Problem {
    /// Both operands are single digits, and a divisor is not zero.
    pub open spec fn wf(self) -> bool {
        &&& self.left <= 9
        &&& self.right <= 9
        &&& self.operator == Operator::Div ==> self.right != 0
    }

    /// The problem that is posed for two operands: a zero divisor is
    /// replaced by 1.
    pub open spec fn of_operands(operand1: u8, operand2: u8, operator: Operator) -> Problem {
        Problem { left: operand1, operator, right: operator.right_operand(operand2) }
    }

    /// The six bytes of the problem: left operand, space, symbol, space,
    /// right operand, zero.
    pub open spec fn record(self) -> Seq<u8> {
        seq![self.left, SPACE, self.operator.symbol_of(), SPACE, self.right, 0u8]
    }

    /// The value of the problem.
    pub open spec fn value(self) -> int {
        self.operator.eval(self.left as int, self.right as int)
    }

    /// The well-formed problem whose record is `record`, if there is one.
    pub open spec fn parse(record: Seq<u8>) -> Option<Problem> {
        match Operator::of_symbol(record[2]) {
            Some(operator) => {
                let problem = Problem { left: record[0], operator, right: record[4] };
                if record.len() == 6 && record[1] == SPACE && record[3] == SPACE && record[5] == 0
                    && problem.wf() {
                    Some(problem)
                } else {
                    None
                }
            },
            None => None,
        }
    }

    /// Poses the problem for two operands.
    pub fn new(operand1: u8, operand2: u8, operator: Operator) -> (problem: Problem)
        requires
            operand1 <= 9,
            operand2 <= 9,
        ensures
            problem == Problem::of_operands(operand1, operand2, operator),
            problem.wf(),
    {
        let right: u8 = match operator {
            Operator::Div => if operand2 == 0 { 1 } else { operand2 },
            _ => operand2,
        };
        Problem { left: operand1, operator, right }
    }

    /// Writes the problem as a record.
    pub fn to_record(&self) -> (record: [u8; 6])
        requires
            self.wf(),
        ensures
            record@ == self.record(),
            operands_in_range(record@),
    {
        let record: [u8; 6] = [
            last_digit(self.left),
            SPACE,
            self.operator.symbol(),
            SPACE,
            last_digit(self.right),
            0,
        ];
        assert(record@ =~= self.record());
        record
    }

    /// Evaluates the problem.
    pub fn solve(&self) -> (result: i8)
        requires
            self.wf(),
        ensures
            result as int == self.value(),
    {
        self.operator.apply(self.left as i8, self.right as i8)
    }

    /// Reads a record back. Only a record that `to_record` can write is
    /// taken.
    pub fn from_record(record: &[u8; 6]) -> (problem: Option<Problem>)
        ensures
            problem == Problem::parse(record@),
    {
        match Operator::from_symbol(record[2]) {
            Some(operator) => {
                if record[1] != SPACE || record[3] != SPACE || record[5] != 0 {
                    return None;
                }
                if record[0] > 9 || record[4] > 9 {
                    return None;
                }
                if record[4] == 0 {
                    match operator {
                        Operator::Div => {
                            return None;
                        },
                        _ => {},
                    }
                }
                Some(Problem { left: record[0], operator, right: record[4] })
            },
            None => None,
        }
    }
}

/// The six bytes of the problem `operand1 <operator> operand2`, with a zero
/// divisor replaced by 1.
pub open spec fn record_of(operand1: u8, operand2: u8, operator: Operator) -> Seq<u8> {
    Problem::of_operands(operand1, operand2, operator).record()
}

/// Both operand bytes of a record are single digits.
pub open spec fn operands_in_range(record: Seq<u8>) -> bool {
    &&& record.len() == 6
    &&& record[0] <= 9
    &&& record[4] <= 9
}

/// The value of the problem that a record holds. A record with an unknown
/// symbol has the value 0.
pub open spec fn solve(record: Seq<u8>) -> int {
    match Operator::of_symbol(record[2]) {
        Some(operator) => operator.eval(record[0] as int, record[4] as int),
        None => 0,
    }
}

/// Writes the record of one problem. A zero divisor is replaced by 1.
pub fn encode_operation(operand1: u8, operand2: u8, operator: Operator) -> (record: [u8; 6])
    requires
        operand1 <= 9,
        operand2 <= 9,
    ensures
        record@ == record_of(operand1, operand2, operator),
        operands_in_range(record@),
{
    Problem::new(operand1, operand2, operator).to_record()
}

/// Evaluates the problem in a record.
pub fn solve_operation(operation: &[u8; 6]) -> (result: i8)
    requires
        operands_in_range(operation@),
    ensures
        result as int == solve(operation@),
{
    let left: i8 = operation[0] as i8;
    let right: i8 = operation[4] as i8;
    match Operator::from_symbol(operation[2]) {
        Some(operator) => operator.apply(left, right),
        None => 0,
    }
}

} // verus!
