use math_quiz::digits::last_digit;
use math_quiz::feedback::{answer_byte, answer_value, feedback_record, grade_answer};
use math_quiz::problem::{encode_operation, solve_operation, Operator, Problem};

const OPERATORS: [Operator; 4] = [Operator::Add, Operator::Sub, Operator::Mul, Operator::Div];

#[test]
fn last_digit_of_single_digits() {
    for n in 0u8..=9 {
        assert_eq!(last_digit(n), n);
    }
}

#[test]
fn last_digit_of_longer_numbers() {
    assert_eq!(last_digit(10), 0);
    assert_eq!(last_digit(42), 2);
    assert_eq!(last_digit(99), 9);
    assert_eq!(last_digit(100), 0);
    assert_eq!(last_digit(123), 3);
    assert_eq!(last_digit(255), 5);
}

#[test]
fn last_digit_is_remainder_by_ten() {
    for n in 0u8..=255 {
        assert_eq!(last_digit(n), n % 10);
    }
}

#[test]
fn symbols_are_ascii() {
    assert_eq!(Operator::Add.symbol(), b'+');
    assert_eq!(Operator::Sub.symbol(), b'-');
    assert_eq!(Operator::Mul.symbol(), b'*');
    assert_eq!(Operator::Div.symbol(), b'/');
}

#[test]
fn selector_picks_operator() {
    assert_eq!(Operator::from_selector(0), Operator::Add);
    assert_eq!(Operator::from_selector(1), Operator::Sub);
    assert_eq!(Operator::from_selector(2), Operator::Mul);
    assert_eq!(Operator::from_selector(3), Operator::Div);
}

#[test]
fn selector_wraps_by_four() {
    assert_eq!(Operator::from_selector(4), Operator::Add);
    assert_eq!(Operator::from_selector(5), Operator::Sub);
    assert_eq!(Operator::from_selector(6), Operator::Mul);
    assert_eq!(Operator::from_selector(7), Operator::Div);
    assert_eq!(Operator::from_selector(8), Operator::Add);
    assert_eq!(Operator::from_selector(9), Operator::Sub);
    assert_eq!(Operator::from_selector(255), Operator::Div);
}

#[test]
fn symbol_round_trip() {
    for operator in OPERATORS {
        assert_eq!(Operator::from_symbol(operator.symbol()), Some(operator));
    }
    assert_eq!(Operator::from_symbol(0), None);
    assert_eq!(Operator::from_symbol(b' '), None);
    assert_eq!(Operator::from_symbol(b'%'), None);
}

#[test]
fn encode_lays_out_six_bytes() {
    assert_eq!(encode_operation(7, 3, Operator::Add), [7, b' ', b'+', b' ', 3, 0]);
    assert_eq!(encode_operation(0, 9, Operator::Sub), [0, b' ', b'-', b' ', 9, 0]);
    assert_eq!(encode_operation(9, 9, Operator::Mul), [9, b' ', b'*', b' ', 9, 0]);
    assert_eq!(encode_operation(8, 2, Operator::Div), [8, b' ', b'/', b' ', 2, 0]);
}

#[test]
fn encode_replaces_zero_divisor() {
    let record = encode_operation(5, 0, Operator::Div);
    assert_eq!(record, [5, b' ', b'/', b' ', 1, 0]);
    assert_eq!(solve_operation(&record), 5);
}

#[test]
fn encode_keeps_zero_for_other_operators() {
    assert_eq!(encode_operation(5, 0, Operator::Add), [5, b' ', b'+', b' ', 0, 0]);
    assert_eq!(encode_operation(5, 0, Operator::Sub), [5, b' ', b'-', b' ', 0, 0]);
    assert_eq!(encode_operation(5, 0, Operator::Mul), [5, b' ', b'*', b' ', 0, 0]);
}

#[test]
fn solve_addition_example() {
    assert_eq!(solve_operation(&[7, b' ', b'+', b' ', 3, 0]), 10);
}

#[test]
fn solve_each_operator() {
    assert_eq!(solve_operation(&[9, b' ', b'+', b' ', 9, 0]), 18);
    assert_eq!(solve_operation(&[3, b' ', b'-', b' ', 7, 0]), -4);
    assert_eq!(solve_operation(&[0, b' ', b'-', b' ', 9, 0]), -9);
    assert_eq!(solve_operation(&[9, b' ', b'*', b' ', 9, 0]), 81);
    assert_eq!(solve_operation(&[7, b' ', b'/', b' ', 2, 0]), 3);
    assert_eq!(solve_operation(&[2, b' ', b'/', b' ', 7, 0]), 0);
}

#[test]
fn solve_with_zero_left_operand() {
    assert_eq!(solve_operation(&[0, b' ', b'+', b' ', 5, 0]), 5);
    assert_eq!(solve_operation(&[0, b' ', b'*', b' ', 5, 0]), 0);
    assert_eq!(solve_operation(&[0, b' ', b'/', b' ', 5, 0]), 0);
}

#[test]
fn solve_division_by_zero_is_zero() {
    assert_eq!(solve_operation(&[5, b' ', b'/', b' ', 0, 0]), 0);
}

#[test]
fn solve_unknown_symbol_is_zero() {
    assert_eq!(solve_operation(&[5, b' ', b'%', b' ', 3, 0]), 0);
    assert_eq!(solve_operation(&[0; 6]), 0);
}

#[test]
fn solve_of_encoded_is_exact_for_all_operands() {
    for a in 0u8..=9 {
        for b in 0u8..=9 {
            let left = a as i8;
            let right = b as i8;
            assert_eq!(solve_operation(&encode_operation(a, b, Operator::Add)), left + right);
            assert_eq!(solve_operation(&encode_operation(a, b, Operator::Sub)), left - right);
            assert_eq!(solve_operation(&encode_operation(a, b, Operator::Mul)), left * right);
            let divisor = if right == 0 { 1 } else { right };
            assert_eq!(solve_operation(&encode_operation(a, b, Operator::Div)), left / divisor);
        }
    }
}

#[test]
fn encoded_divisor_is_never_zero() {
    for a in 0u8..=9 {
        for b in 0u8..=9 {
            assert_ne!(encode_operation(a, b, Operator::Div)[4], 0);
        }
    }
}

#[test]
fn answer_value_reads_twos_complement() {
    assert_eq!(answer_value(0), 0);
    assert_eq!(answer_value(10), 10);
    assert_eq!(answer_value(127), 127);
    assert_eq!(answer_value(128), -128);
    assert_eq!(answer_value(250), -6);
    assert_eq!(answer_value(255), -1);
}

#[test]
fn answer_byte_writes_twos_complement() {
    assert_eq!(answer_byte(0), 0);
    assert_eq!(answer_byte(81), 81);
    assert_eq!(answer_byte(-1), 255);
    assert_eq!(answer_byte(-6), 250);
    assert_eq!(answer_byte(-9), 247);
    assert_eq!(answer_byte(-128), 128);
}

#[test]
fn answer_byte_round_trip() {
    for value in i8::MIN..=i8::MAX {
        assert_eq!(answer_value(answer_byte(value)), value);
    }
}

#[test]
fn feedback_records_hold_the_words() {
    assert_eq!(&feedback_record(true), b"Correct\0\0\0\0\0");
    assert_eq!(&feedback_record(false), b"Incorrect\0\0\0");
}

#[test]
fn grade_answer_example() {
    let record = [7, b' ', b'+', b' ', 3, 0];
    assert!(grade_answer(&record, 10));
    assert!(!grade_answer(&record, 250));
    assert_eq!(&feedback_record(grade_answer(&record, 10))[..7], b"Correct");
    assert_eq!(&feedback_record(grade_answer(&record, 250))[..9], b"Incorrect");
}

#[test]
fn grade_answer_negative_result() {
    let record = encode_operation(3, 9, Operator::Sub);
    assert!(grade_answer(&record, 250));
    assert!(!grade_answer(&record, 6));
}

#[test]
fn own_value_is_a_correct_answer() {
    for a in 0u8..=9 {
        for b in 0u8..=9 {
            for operator in OPERATORS {
                let record = encode_operation(a, b, operator);
                assert!(grade_answer(&record, answer_byte(solve_operation(&record))));
            }
        }
    }
}

#[test]
fn apply_each_operator() {
    assert_eq!(Operator::Add.apply(7, 3), 10);
    assert_eq!(Operator::Sub.apply(0, 9), -9);
    assert_eq!(Operator::Mul.apply(9, 9), 81);
    assert_eq!(Operator::Div.apply(9, 2), 4);
    assert_eq!(Operator::Div.apply(9, 0), 0);
}

#[test]
fn problem_new_replaces_zero_divisor() {
    assert_eq!(
        Problem::new(5, 0, Operator::Div),
        Problem { left: 5, operator: Operator::Div, right: 1 }
    );
    assert_eq!(
        Problem::new(5, 0, Operator::Mul),
        Problem { left: 5, operator: Operator::Mul, right: 0 }
    );
    assert_eq!(Problem::new(5, 0, Operator::Div).solve(), 5);
}

#[test]
fn problem_record_round_trip() {
    for a in 0u8..=9 {
        for b in 0u8..=9 {
            for operator in OPERATORS {
                let problem = Problem::new(a, b, operator);
                let record = problem.to_record();
                assert_eq!(record, encode_operation(a, b, operator));
                assert_eq!(Problem::from_record(&record), Some(problem));
                assert_eq!(problem.solve(), solve_operation(&record));
            }
        }
    }
}

#[test]
fn from_record_refuses_other_bytes() {
    assert_eq!(
        Problem::from_record(&[7, b' ', b'+', b' ', 3, 0]),
        Some(Problem { left: 7, operator: Operator::Add, right: 3 })
    );
    assert_eq!(Problem::from_record(&[0; 6]), None);
    assert_eq!(Problem::from_record(&[7, b' ', b'%', b' ', 3, 0]), None);
    assert_eq!(Problem::from_record(&[7, 0, b'+', b' ', 3, 0]), None);
    assert_eq!(Problem::from_record(&[7, b' ', b'+', 0, 3, 0]), None);
    assert_eq!(Problem::from_record(&[7, b' ', b'+', b' ', 3, 1]), None);
    assert_eq!(Problem::from_record(&[10, b' ', b'+', b' ', 3, 0]), None);
    assert_eq!(Problem::from_record(&[7, b' ', b'+', b' ', 10, 0]), None);
    assert_eq!(Problem::from_record(&[7, b' ', b'/', b' ', 0, 0]), None);
    assert_eq!(
        Problem::from_record(&[7, b' ', b'-', b' ', 0, 0]),
        Some(Problem { left: 7, operator: Operator::Sub, right: 0 })
    );
}
