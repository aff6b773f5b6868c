//! What holds of the machine and of the front end, for every state and
//! every program.

use vstd::prelude::*;
use crate::compiler::{group, instruction_of, program_of, Token};
use crate::machine::{initial, run, Outcome, State};
use crate::value::{binary_result, quotient};
use crate::value::{Address, Fault, Instruction, Operator, Value};

verus! {

/// `Dup` faults with `StackUnderflow` on an empty stack; on a stack with `a`
/// on top it leaves `a` there twice and changes nothing else but the
/// program counter.
pub proof fn lemma_dup(s: State)
    ensures
        s.stack.len() == 0 ==> s.execute(Instruction::Dup) == Err::<State, Fault>(
            Fault::StackUnderflow,
        ),
        s.stack.len() > 0 ==> s.execute(Instruction::Dup) == Ok::<State, Fault>(
            State { stack: s.stack.push(s.stack.last()), pc: s.pc + 1, ..s },
        ),
{
}

/// `Swap` on a stack that ends in `x`, `y` leaves one that ends in `y`, `x`,
/// and changes nothing else but the program counter.
pub proof fn lemma_swap(s: State, rest: Seq<Address>, x: Address, y: Address)
    requires
        s.stack == rest.push(x).push(y),
    ensures
        s.execute(Instruction::Swap) == Ok::<State, Fault>(
            State { stack: rest.push(y).push(x), pc: s.pc + 1, ..s },
        ),
{
    assert(s.below(2) =~= rest);
}

/// `Equal` on two slots that hold integers writes whether they are equal
/// into the lower operand's slot and pushes that slot's address. Where one
/// of the two slots holds no integer, both addresses are consumed, nothing is
/// pushed and the heap stays as it is.
pub proof fn lemma_equal(s: State, rest: Seq<Address>, base: Address, a: Address)
    requires
        s.stack == rest.push(base).push(a),
        a.0 < s.heap.len(),
        base.0 < s.heap.len(),
    ensures
        (s.heap[base.0 as int] is Integer && s.heap[a.0 as int] is Integer) ==> s.execute(
            Instruction::Equal,
        ) == Ok::<State, Fault>(
            State {
                stack: rest.push(base),
                heap: s.heap.update(
                    base.0 as int,
                    Value::Bool(s.heap[base.0 as int]->Integer_0 == s.heap[a.0 as int]->Integer_0),
                ),
                pc: s.pc + 1,
                ..s
            },
        ),
        !(s.heap[base.0 as int] is Integer && s.heap[a.0 as int] is Integer) ==> s.execute(
            Instruction::Equal,
        ) == Ok::<State, Fault>(State { stack: rest, pc: s.pc + 1, ..s }),
{
    assert(s.below(2) =~= rest);
}

/// `Div` by an integer zero faults with `ArithmeticFault`, and a run that
/// comes to it ends there with the state that the instruction found: no heap
/// slot is modified.
pub proof fn lemma_div_by_zero(
    code: Seq<Instruction>,
    s: State,
    rest: Seq<Address>,
    base: Address,
    a: Address,
    budget: nat,
)
    requires
        s.stack == rest.push(base).push(a),
        a.0 < s.heap.len(),
        base.0 < s.heap.len(),
        s.heap[a.0 as int] == Value::Integer(0),
        s.heap[base.0 as int] is Integer,
        s.pc < code.len(),
        code[s.pc as int] == Instruction::Div,
        budget > 0,
    ensures
        s.execute(Instruction::Div) == Err::<State, Fault>(Fault::ArithmeticFault),
        run(code, s, budget) == (s, Outcome::Faulted(Fault::ArithmeticFault)),
{
}

/// `Jump` with a condition slot that holds `Bool(true)` sets the program
/// counter to the target, without adding one; with any other value in the
/// slot the program counter moves on to the next instruction. Either way
/// both addresses leave the stack and nothing else changes.
pub proof fn lemma_jump(s: State, rest: Seq<Address>, target: Address, condition: Address)
    requires
        s.stack == rest.push(target).push(condition),
        condition.0 < s.heap.len(),
    ensures
        s.heap[condition.0 as int] == Value::Bool(true) ==> s.execute(Instruction::Jump) == Ok::<
            State,
            Fault,
        >(State { stack: rest, pc: target.0 as nat, ..s }),
        s.heap[condition.0 as int] != Value::Bool(true) ==> s.execute(Instruction::Jump) == Ok::<
            State,
            Fault,
        >(State { stack: rest, pc: s.pc + 1, ..s }),
{
    assert(s.below(2) =~= rest);
}

/// Every instruction but a taken `Jump` moves the program counter on by one.
pub proof fn lemma_program_counter(s: State, instruction: Instruction)
    requires
        s.execute(instruction) is Ok,
    ensures
        instruction != Instruction::Jump ==> s.execute(instruction)->Ok_0.pc == s.pc + 1,
        instruction == Instruction::Jump ==> s.execute(instruction)->Ok_0.pc == (if s.heap[s.stack.last().0 as int]
            == Value::Bool(true) {
            s.stack[s.stack.len() - 2].0 as nat
        } else {
            s.pc + 1
        }),
{
}

/// The address register moves on by one with each allocation (`Store`,
/// `Copy`, `Move`), takes the popped address on `Ar`, and stays where it is
/// on every other instruction: nothing ever moves it back but `Ar`.
pub proof fn lemma_address_register(s: State, instruction: Instruction)
    requires
        s.execute(instruction) is Ok,
    ensures
        s.execute(instruction)->Ok_0.ar == (match instruction {
            Instruction::Store(_) | Instruction::Copy | Instruction::Move => s.ar + 1,
            Instruction::Ar => s.stack.last().0 as nat,
            _ => s.ar,
        }),
{
}

/// No instruction changes the number of heap slots.
pub proof fn lemma_execute_keeps_capacity(s: State, instruction: Instruction)
    ensures
        s.execute(instruction) is Ok ==> s.execute(instruction)->Ok_0.heap.len() == s.heap.len(),
{
}

/// No run changes the number of heap slots.
pub proof fn lemma_run_keeps_capacity(code: Seq<Instruction>, s: State, budget: nat)
    ensures
        run(code, s, budget).0.heap.len() == s.heap.len(),
    decreases budget,
{
    if s.pc < code.len() && budget > 0 {
        let instruction = code[s.pc as int];
        lemma_execute_keeps_capacity(s, instruction);
        if let Ok(next) = s.execute(instruction) {
            lemma_run_keeps_capacity(code, next, (budget - 1) as nat);
        }
    }
}

/// How a run ended tells where it stands: after a halt the program counter
/// is past the program; when the budget ran out it is not, and the budget is
/// spent; after a fault it names the instruction that raised the fault, which
/// would raise it again.
pub proof fn lemma_run_outcome(code: Seq<Instruction>, s: State, budget: nat)
    ensures
        match run(code, s, budget).1 {
            Outcome::Halted => run(code, s, budget).0.pc >= code.len(),
            Outcome::Exhausted => run(code, s, budget).0.pc < code.len(),
            Outcome::Faulted(fault) => run(code, s, budget).0.pc < code.len() && run(
                code,
                s,
                budget,
            ).0.execute(code[run(code, s, budget).0.pc as int]) == Err::<State, Fault>(fault),
        },
    decreases budget,
{
    if s.pc < code.len() && budget > 0 {
        if let Ok(next) = s.execute(code[s.pc as int]) {
            lemma_run_outcome(code, next, (budget - 1) as nat);
        }
    }
}

/// A run that halted or faulted within some budget ends the same way, in
/// the same state, within any larger one.
pub proof fn lemma_run_with_more_budget(code: Seq<Instruction>, s: State, budget: nat, more: nat)
    requires
        run(code, s, budget).1 != Outcome::Exhausted,
        budget <= more,
    ensures
        run(code, s, more) == run(code, s, budget),
    decreases budget,
{
    if s.pc < code.len() && budget > 0 {
        if let Ok(next) = s.execute(code[s.pc as int]) {
            lemma_run_with_more_budget(code, next, (budget - 1) as nat, (more - 1) as nat);
        }
    }
}

/// Two runs of one program, each from a new machine of the same capacity and
/// with the same budget, end alike and in the same state: the final heaps
/// are equal.
pub proof fn lemma_runs_agree(
    code: Seq<Instruction>,
    capacity: nat,
    budget: nat,
    first: (State, Outcome),
    second: (State, Outcome),
)
    requires
        first == run(code, initial(capacity), budget),
        second == run(code, initial(capacity), budget),
    ensures
        first.0.heap == second.0.heap,
        first == second,
{
}

/// What an operator makes of the running result and the next literal, read
/// as plain arithmetic: `None` for a division by zero and for a result that
/// 64 signed bits cannot hold.
pub open spec fn apply(operator: Token, left: i64, right: i64) -> Option<i64> {
    let exact: Option<int> = match operator {
        Token::Plus => Some(left + right),
        Token::Minus => Some(left - right),
        Token::Star => Some(left * right),
        Token::Slash => if right == 0 {
            None
        } else {
            Some(quotient(left as int, right as int))
        },
        _ => None,
    };
    match exact {
        Some(v) => if i64::MIN <= v <= i64::MAX {
            Some(v as i64)
        } else {
            None
        },
        None => None,
    }
}

/// Whether the tokens are operators and literals in turn, an operator first.
pub open spec fn operands_alternate(rest: Seq<Token>) -> bool
    decreases rest.len(),
{
    rest.len() == 0 || (rest.len() >= 2 && instruction_of(rest[0]) is Some && rest[1] is Number
        && operands_alternate(rest.skip(2)))
}

/// A well-formed expression: a literal, then operators and literals in turn.
pub open spec fn well_formed(tokens: Seq<Token>) -> bool {
    tokens.len() >= 1 && tokens[0] is Number && operands_alternate(tokens.skip(1))
}

/// The running result `acc` after the operators and literals of `rest` have
/// been applied to it, one after the other from the left.
pub open spec fn fold(acc: i64, rest: Seq<Token>) -> Option<i64>
    decreases rest.len(),
{
    if rest.len() < 2 {
        Some(acc)
    } else {
        match apply(rest[0], acc, rest[1]->Number_0) {
            Some(v) => fold(v, rest.skip(2)),
            None => None,
        }
    }
}

/// The value of a well-formed expression, read strictly from left to right
/// with no precedence among the operators.
pub open spec fn evaluate(tokens: Seq<Token>) -> Option<i64>
    recommends
        well_formed(tokens),
{
    fold(tokens[0]->Number_0, tokens.skip(1))
}

/// Operators and literals in turn always have a program: four instructions
/// for each pair.
pub proof fn lemma_program_of_operands(rest: Seq<Token>)
    requires
        operands_alternate(rest),
    ensures
        program_of(rest) is Ok,
        program_of(rest)->Ok_0.len() == 2 * rest.len(),
        rest.len() >= 2 ==> program_of(rest)->Ok_0 == group(
            instruction_of(rest[0])->Some_0,
            rest[1]->Number_0,
        ) + program_of(rest.skip(2))->Ok_0,
    decreases rest.len(),
{
    if rest.len() > 0 {
        lemma_program_of_operands(rest.skip(2));
    }
}

/// The operator that an arithmetic instruction of the front end applies.
spec fn operator_of(t: Token) -> Operator {
    match t {
        Token::Plus => Operator::Add,
        Token::Minus => Operator::Sub,
        Token::Star => Operator::Mul,
        _ => Operator::Div,
    }
}

proof fn lemma_groups_run(code: Seq<Instruction>, s: State, rest: Seq<Token>, acc: i64, budget: nat)
    requires
        operands_alternate(rest),
        s.stack == seq![Address(0)],
        s.heap.len() >= 2,
        s.heap[0] == Value::Integer(acc),
        s.ar == 1,
        s.pc <= code.len(),
        code.skip(s.pc as int) == program_of(rest)->Ok_0,
        budget >= code.len() - s.pc,
    ensures
        match fold(acc, rest) {
            Some(v) => run(code, s, budget).1 == Outcome::Halted && run(code, s, budget).0.heap[0]
                == Value::Integer(v) && run(code, s, budget).0.heap.len() == s.heap.len(),
            None => run(code, s, budget).1 == Outcome::Faulted(Fault::ArithmeticFault),
        },
    decreases rest.len(),
{
    lemma_program_of_operands(rest);
    let tail = code.skip(s.pc as int);
    if rest.len() == 0 {
        assert(s.pc == code.len());
    } else {
        let n = rest[1]->Number_0;
        let instruction = instruction_of(rest[0])->Some_0;
        let op = operator_of(rest[0]);
        let g = group(instruction, n);
        let after = program_of(rest.skip(2))->Ok_0;
        lemma_program_of_operands(rest.skip(2));
        assert(tail == g + after);
        let p = s.pc as int;
        assert(code[p] == tail[0] && tail[0] == g[0]);
        assert(code[p + 1] == tail[1] && tail[1] == g[1]);
        assert(code[p + 2] == tail[2] && tail[2] == g[2]);
        assert(code[p + 3] == tail[3] && tail[3] == g[3]);
        let s1 = State {
            stack: seq![Address(0), Address(1)],
            heap: s.heap.update(1, Value::Integer(n)),
            pc: s.pc + 1,
            ar: 2,
        };
        assert(s.stack.push(Address(1)) =~= s1.stack);
        assert(s.execute(code[p]) == Ok::<State, Fault>(s1));
        let s2 = State { stack: seq![Address(0), Address(1), Address(1)], pc: s.pc + 2, ..s1 };
        assert(s1.stack.push(Address(1)) =~= s2.stack);
        assert(s1.execute(code[p + 1]) == Ok::<State, Fault>(s2));
        let s3 = State { stack: seq![Address(0), Address(1)], pc: s.pc + 3, ar: 1, ..s2 };
        assert(s2.below(1) =~= s3.stack);
        assert(s2.execute(code[p + 2]) == Ok::<State, Fault>(s3));
        assert(s3.below(2) =~= Seq::<Address>::empty());
        let c = binary_result(op, Value::Integer(acc), Value::Integer(n));
        assert(s3.combine(op) == s3.conclude(s3.below(2), Address(0), c));
        assert(run(code, s, budget) == run(code, s1, (budget - 1) as nat));
        assert(run(code, s1, (budget - 1) as nat) == run(code, s2, (budget - 2) as nat));
        assert(run(code, s2, (budget - 2) as nat) == run(code, s3, (budget - 3) as nat));
        match apply(rest[0], acc, n) {
            Some(v) => {
                let s4 = State {
                    stack: seq![Address(0)],
                    heap: s3.heap.update(0, Value::Integer(v)),
                    pc: s.pc + 4,
                    ..s3
                };
                assert(s3.execute(code[p + 3]) == Ok::<State, Fault>(s4));
                assert(run(code, s3, (budget - 3) as nat) == run(code, s4, (budget - 4) as nat));
                assert(tail.skip(4) =~= after);
                assert(code.skip(s4.pc as int) =~= tail.skip(4));
                lemma_groups_run(code, s4, rest.skip(2), v, (budget - 4) as nat);
            },
            None => {
                assert(s3.execute(code[p + 3]) == Err::<State, Fault>(Fault::ArithmeticFault));
            },
        }
    }
}

/// The program of a well-formed expression, run on a new machine with at
/// least two heap slots and a budget of at least two instructions for each
/// token, halts with the expression's left-to-right value in heap slot 0; it
/// faults with `ArithmeticFault` exactly where that reading divides by zero
/// or leaves the 64-bit range.
pub proof fn lemma_compiled_expression_evaluates(tokens: Seq<Token>, capacity: nat, budget: nat)
    requires
        well_formed(tokens),
        capacity >= 2,
        budget >= 2 * tokens.len(),
    ensures
        program_of(tokens) is Ok,
        match evaluate(tokens) {
            Some(v) => run(program_of(tokens)->Ok_0, initial(capacity), budget).1 == Outcome::Halted
                && run(program_of(tokens)->Ok_0, initial(capacity), budget).0.heap[0]
                == Value::Integer(v),
            None => run(program_of(tokens)->Ok_0, initial(capacity), budget).1 == Outcome::Faulted(
                Fault::ArithmeticFault,
            ),
        },
{
    let rest = tokens.skip(1);
    let n = tokens[0]->Number_0;
    lemma_program_of_operands(rest);
    let first = seq![Instruction::Store(Value::Integer(n))];
    let code = program_of(tokens)->Ok_0;
    assert(code == first + program_of(rest)->Ok_0);
    let s = initial(capacity);
    let s1 = State {
        stack: seq![Address(0)],
        heap: s.heap.update(0, Value::Integer(n)),
        pc: 1,
        ar: 1,
    };
    assert(s.stack.push(Address(0)) =~= s1.stack);
    assert(code[0] == first[0]);
    assert(s.execute(code[0]) == Ok::<State, Fault>(s1));
    assert(run(code, s, budget) == run(code, s1, (budget - 1) as nat));
    assert(code.skip(1) =~= program_of(rest)->Ok_0);
    lemma_groups_run(code, s1, rest, n, (budget - 1) as nat);
}

} // verus!
