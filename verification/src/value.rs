//! Values, addresses, instructions, and the arithmetic of the instruction set.

use vstd::prelude::*;
use vstd::arithmetic::div_mod::{lemma_fundamental_div_mod, lemma_mod_bound};

verus! {

/// An index into the heap. The operand stack holds these, never values.
#[derive(Clone, Copy, Debug, PartialEq, Eq, Structural)]
pub struct Address(pub usize);

/// What a heap slot holds. `Null` is what every slot holds at first.
#[derive(Clone, Copy, Debug, PartialEq, Eq, Structural)]
pub enum Value {
    Integer(i64),
    Bool(bool),
    Null,
}

/// The instruction set.
#[derive(Clone, Copy, Debug, PartialEq, Eq, Structural)]
pub enum Instruction {
    /// Pop an address and duplicate its value into the slot at the address register.
    Copy,
    /// Pop an address and move its value into the slot at the address register,
    /// leaving `Null` behind.
    Move,
    /// Write the value into the slot at the address register and push that address.
    Store(Value),
    /// Pop an address into the address register.
    Ar,
    /// Pop a condition address and a target; jump when the condition holds `Bool(true)`.
    Jump,
    /// Push an address literal.
    Push(Address),
    /// Pop an address and push it twice.
    Dup,
    /// Exchange the two topmost addresses.
    Swap,
    /// Compare two integers and write the answer into the lower operand's slot.
    Equal,
    /// Invert a boolean in place.
    Not,
    /// Add one to an integer in place.
    Inc,
    /// Subtract one from an integer in place.
    Dec,
    Add,
    Sub,
    Mul,
    Div,
}

/// A fatal fault. The run ends at the instruction that raised it.
#[derive(Clone, Copy, Debug, PartialEq, Eq, Structural)]
pub enum Fault {
    /// An instruction needed an operand that the stack did not have.
    StackUnderflow,
    /// The address register or an operand named a slot outside the heap.
    HeapOutOfBounds,
    /// Division by zero, or a result that a 64-bit signed integer cannot hold.
    ArithmeticFault,
}

/// The instructions that take two operands from the heap.
#[derive(Clone, Copy, Debug, PartialEq, Eq, Structural)]
pub enum Operator {
    Equal,
    Add,
    Sub,
    Mul,
    Div,
}

/// The instructions that rewrite one heap slot in place.
#[derive(Clone, Copy, Debug, PartialEq, Eq, Structural)]
pub enum Unary {
    Not,
    Inc,
    Dec,
}

/// What an arithmetic, comparison or logic instruction makes of its operands.
#[derive(Clone, Copy, Debug, PartialEq, Eq, Structural)]
pub enum Computed {
    /// The operands had the expected variants; this is the value to write.
    Written(Value),
    /// An operand had another variant: nothing is written and nothing pushed.
    Skipped,
    /// The operands had the expected variants and the operation has no result.
    Failed,
}

/// Integer division that rounds toward zero, for a divisor other than zero.
pub open spec fn quotient(x: int, d: int) -> int
    recommends
        d != 0,
{
    if x == 0 {
        0
    } else if x > 0 && d > 0 {
        x / d
    } else if x < 0 && d < 0 {
        (x * -1) / (d * -1)
    } else if x < 0 {
        ((x * -1) / d) * -1
    } else {
        (x / (d * -1)) * -1
    }
}

/// The integer as a value, where 64 signed bits hold it.
pub open spec fn integer_or_fail(v: int) -> Computed {
    if i64::MIN <= v <= i64::MAX {
        Computed::Written(Value::Integer(v as i64))
    } else {
        Computed::Failed
    }
}

/// The result of a two-operand instruction on the values of its left (lower)
/// and right (top) operands.
pub open spec fn binary_result(op: Operator, left: Value, right: Value) -> Computed {
    match (left, right) {
        (Value::Integer(l), Value::Integer(r)) => match op {
            Operator::Equal => Computed::Written(Value::Bool(l == r)),
            Operator::Add => integer_or_fail(l + r),
            Operator::Sub => integer_or_fail(l - r),
            Operator::Mul => integer_or_fail(l * r),
            Operator::Div => if r == 0 {
                Computed::Failed
            } else {
                integer_or_fail(quotient(l as int, r as int))
            },
        },
        _ => Computed::Skipped,
    }
}

/// The result of a one-operand instruction on the value of its operand.
pub open spec fn unary_result(op: Unary, operand: Value) -> Computed {
    match (op, operand) {
        (Unary::Not, Value::Bool(b)) => Computed::Written(Value::Bool(!b)),
        (Unary::Inc, Value::Integer(i)) => integer_or_fail(i + 1),
        (Unary::Dec, Value::Integer(i)) => integer_or_fail(i - 1),
        _ => Computed::Skipped,
    }
}

fn integer_result(exact: Option<i64>) -> (c: Computed)
    ensures
        c == (match exact {
            Some(v) => Computed::Written(Value::Integer(v)),
            None => Computed::Failed,
        }),
{
    match exact {
        Some(v) => Computed::Written(Value::Integer(v)),
        None => Computed::Failed,
    }
}

/// The quotient rounds toward zero: what is left over has the sign of the
/// dividend and is smaller than the divisor in magnitude.
pub proof fn lemma_quotient_rounds_toward_zero(x: int, d: int)
    requires
        d != 0,
    ensures
        x >= 0 ==> 0 <= x - quotient(x, d) * d < (if d > 0 { d } else { -d }),
        x <= 0 ==> 0 <= quotient(x, d) * d - x < (if d > 0 { d } else { -d }),
{
    let m = if d > 0 { d } else { -d };
    let a = if x >= 0 { x } else { -x };
    lemma_fundamental_div_mod(a, m);
    lemma_mod_bound(a, m);
    let q = a / m;
    if x != 0 {
        if (x > 0) == (d > 0) {
            assert(quotient(x, d) == q);
        } else {
            assert(quotient(x, d) == -q);
        }
        assert(q * m == (-q) * (-m)) by (nonlinear_arith);
        assert((-q) * m == -(q * m)) by (nonlinear_arith);
        assert(q * (-m) == -(q * m)) by (nonlinear_arith);
        assert(m * q == q * m) by (nonlinear_arith);
    } else {
        assert(0 * d == 0);
    }
}

/// Applies a two-operand instruction to the values of its operands.
pub fn binary(op: Operator, left: Value, right: Value) -> (c: Computed)
    ensures
        c == binary_result(op, left, right),
{
    match (left, right) {
        (Value::Integer(l), Value::Integer(r)) => match op {
            Operator::Equal => Computed::Written(Value::Bool(l == r)),
            Operator::Add => integer_result(l.checked_add(r)),
            Operator::Sub => integer_result(l.checked_sub(r)),
            Operator::Mul => integer_result(l.checked_mul(r)),
            Operator::Div => integer_result(l.checked_div(r)),
        },
        _ => Computed::Skipped,
    }
}

/// Applies a one-operand instruction to the value of its operand.
pub fn unary(op: Unary, operand: Value) -> (c: Computed)
    ensures
        c == unary_result(op, operand),
{
    match (op, operand) {
        (Unary::Not, Value::Bool(b)) => Computed::Written(Value::Bool(!b)),
        (Unary::Inc, Value::Integer(i)) => integer_result(i.checked_add(1)),
        (Unary::Dec, Value::Integer(i)) => integer_result(i.checked_sub(1)),
        _ => Computed::Skipped,
    }
}

} // verus!
