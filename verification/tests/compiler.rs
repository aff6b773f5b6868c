use ladygrey::{calc_compiler, classify, compile_tokens, tokenize};
use ladygrey::{Address, CompileError, Fault, Instruction, Machine, Outcome, Token, Value, RAM_SPEC};

fn evaluate(source: &str) -> (Outcome, Value) {
    let code = calc_compiler(source).unwrap();
    let mut m = Machine::new(code, RAM_SPEC);
    let outcome = m.start(1_000_000);
    (outcome, m.heap[0])
}

#[test]
fn expression_without_precedence() {
    assert_eq!(evaluate("1 + 2 * 4 / 3 - 5"), (Outcome::Halted, Value::Integer(-1)));
}

#[test]
fn expression_of_sums() {
    assert_eq!(evaluate("1 + 2 + 3 + 4"), (Outcome::Halted, Value::Integer(10)));
}

#[test]
fn single_literal() {
    assert_eq!(calc_compiler("42"), Ok(vec![Instruction::Store(Value::Integer(42))]));
    assert_eq!(evaluate("42"), (Outcome::Halted, Value::Integer(42)));
}

#[test]
fn empty_text_is_the_empty_program() {
    assert_eq!(calc_compiler(""), Ok(vec![]));
    assert_eq!(calc_compiler("  \t\n "), Ok(vec![]));
}

#[test]
fn operator_emits_four_instructions() {
    assert_eq!(
        calc_compiler("8 / -2"),
        Ok(vec![
            Instruction::Store(Value::Integer(8)),
            Instruction::Store(Value::Integer(-2)),
            Instruction::Push(Address(1)),
            Instruction::Ar,
            Instruction::Div,
        ])
    );
    assert_eq!(
        calc_compiler("+ 3"),
        Ok(vec![
            Instruction::Store(Value::Integer(3)),
            Instruction::Push(Address(1)),
            Instruction::Ar,
            Instruction::Add,
        ])
    );
    assert_eq!(
        calc_compiler("1 2"),
        Ok(vec![Instruction::Store(Value::Integer(1)), Instruction::Store(Value::Integer(2))])
    );
}

#[test]
fn each_operator_has_its_instruction() {
    let last = |s: &str| *calc_compiler(s).unwrap().last().unwrap();
    assert_eq!(last("1 + 1"), Instruction::Add);
    assert_eq!(last("1 - 1"), Instruction::Sub);
    assert_eq!(last("1 * 1"), Instruction::Mul);
    assert_eq!(last("1 / 1"), Instruction::Div);
}

#[test]
fn malformed_expressions_are_refused() {
    assert_eq!(calc_compiler("1 +"), Err(CompileError::MissingOperand));
    assert_eq!(calc_compiler("1 + x"), Err(CompileError::InvalidOperand));
    assert_eq!(calc_compiler("1 + +"), Err(CompileError::InvalidOperand));
    assert_eq!(calc_compiler("1 % 2"), Err(CompileError::UnknownToken));
    assert_eq!(calc_compiler("one"), Err(CompileError::UnknownToken));
    assert_eq!(calc_compiler("1+2"), Err(CompileError::UnknownToken));
    assert_eq!(calc_compiler("99999999999999999999"), Err(CompileError::UnknownToken));
    assert_eq!(calc_compiler("x +"), Err(CompileError::UnknownToken));
}

#[test]
fn words_are_split_at_any_whitespace() {
    assert_eq!(
        tokenize("  12\t+\n-3   *  4 "),
        vec![Token::Number(12), Token::Plus, Token::Number(-3), Token::Star, Token::Number(4)]
    );
    assert_eq!(tokenize(""), vec![]);
    assert_eq!(tokenize("a / -"), vec![Token::Unknown, Token::Slash, Token::Minus]);
}

#[test]
fn classify_reads_operators_and_integers() {
    assert_eq!(classify(&"+".to_string()), Token::Plus);
    assert_eq!(classify(&"-".to_string()), Token::Minus);
    assert_eq!(classify(&"*".to_string()), Token::Star);
    assert_eq!(classify(&"/".to_string()), Token::Slash);
    assert_eq!(classify(&"42".to_string()), Token::Number(42));
    assert_eq!(classify(&"-7".to_string()), Token::Number(-7));
    assert_eq!(classify(&"+7".to_string()), Token::Number(7));
    assert_eq!(classify(&"9223372036854775807".to_string()), Token::Number(i64::MAX));
    assert_eq!(classify(&"9223372036854775808".to_string()), Token::Unknown);
    assert_eq!(classify(&"4.5".to_string()), Token::Unknown);
    assert_eq!(classify(&"".to_string()), Token::Unknown);
    assert_eq!(classify(&"**".to_string()), Token::Unknown);
}

#[test]
fn compile_tokens_reads_from_the_left() {
    assert_eq!(compile_tokens(&vec![]), Ok(vec![]));
    assert_eq!(
        compile_tokens(&vec![Token::Number(1), Token::Minus, Token::Number(2)]),
        Ok(vec![
            Instruction::Store(Value::Integer(1)),
            Instruction::Store(Value::Integer(2)),
            Instruction::Push(Address(1)),
            Instruction::Ar,
            Instruction::Sub,
        ])
    );
    assert_eq!(compile_tokens(&vec![Token::Number(1), Token::Unknown, Token::Plus]), Err(CompileError::UnknownToken));
    assert_eq!(compile_tokens(&vec![Token::Star, Token::Unknown]), Err(CompileError::InvalidOperand));
    assert_eq!(compile_tokens(&vec![Token::Number(1), Token::Star]), Err(CompileError::MissingOperand));
}

#[test]
fn compiled_expression_matches_left_to_right_reading() {
    assert_eq!(evaluate("2 + 3 * 4"), (Outcome::Halted, Value::Integer(20)));
    assert_eq!(evaluate("10 - 20 / 3"), (Outcome::Halted, Value::Integer(-3)));
    assert_eq!(evaluate("-7 / 2 * 2"), (Outcome::Halted, Value::Integer(-6)));
    assert_eq!(evaluate("100 / 7 / 2 - 1 * 3 + 4"), (Outcome::Halted, Value::Integer(22)));
}

#[test]
fn compiled_expression_leaves_the_accumulator_on_the_stack() {
    let code = calc_compiler("1 + 2 + 3 + 4").unwrap();
    assert_eq!(code.len(), 13);
    let mut m = Machine::with_default_capacity(code);
    assert_eq!(m.start(13), Outcome::Halted);
    assert_eq!(m.stack, vec![Address(0)]);
    assert_eq!(m.heap, vec![Value::Integer(10), Value::Integer(4)]);
    assert_eq!((m.pc, m.ar), (13, 1));
}

#[test]
fn division_by_zero_in_an_expression_faults() {
    let code = calc_compiler("6 * 2 / 0 + 1").unwrap();
    let mut m = Machine::with_default_capacity(code);
    assert_eq!(m.start(100), Outcome::Faulted(Fault::ArithmeticFault));
    assert_eq!(m.heap, vec![Value::Integer(12), Value::Integer(0)]);
    assert_eq!(m.pc, 8);
}

#[test]
fn overflow_in_an_expression_faults() {
    assert_eq!(evaluate("9223372036854775807 + 1").0, Outcome::Faulted(Fault::ArithmeticFault));
    assert_eq!(evaluate("-9223372036854775808 / -1").0, Outcome::Faulted(Fault::ArithmeticFault));
}

#[test]
fn expression_needs_two_heap_slots() {
    let code = calc_compiler("1 + 2").unwrap();
    let mut m = Machine::new(code, 1);
    assert_eq!(m.start(100), Outcome::Faulted(Fault::HeapOutOfBounds));
    assert_eq!(m.pc, 1);
    assert_eq!(m.heap, vec![Value::Integer(1)]);
}

#[test]
fn compiling_twice_gives_the_same_result() {
    let first = evaluate("3 * 3 - 10 / 2");
    let second = evaluate("3 * 3 - 10 / 2");
    assert_eq!(first, second);
    assert_eq!(first, (Outcome::Halted, Value::Integer(0)));
}
