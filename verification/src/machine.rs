//! The machine: its state, the effect of each instruction, and the dispatch loop.

use vstd::prelude::*;
use crate::value::{binary, binary_result, unary, unary_result};
use crate::value::{Address, Computed, Fault, Instruction, Operator, Unary, Value};

verus! {

/// The heap capacity of a machine built by `Machine::with_default_capacity`.
pub const RAM_SPEC: usize = 2;

/// The mutable part of a machine, as mathematics: the program is not in it,
/// since no instruction changes the program.
pub struct State {
    /// Heap addresses, the last one on top.
    pub stack: Seq<Address>,
    /// The heap; its length is the capacity and never changes.
    pub heap: Seq<Value>,
    /// Index of the next instruction.
    pub pc: nat,
    /// The next heap slot to allocate.
    pub ar: nat,
}

/// How a run ended.
#[derive(Clone, Copy, Debug, PartialEq, Eq, Structural)]
pub enum Outcome {
    /// The program counter left the program.
    Halted,
    /// The step budget ran out before the program halted.
    Exhausted,
    /// An instruction raised a fatal fault; the state is the one it found.
    Faulted(Fault),
}

/// The machine. The program is fixed; everything else changes as it runs.
#[derive(Debug, Clone)]
pub struct Machine {
    /// Area that holds addresses.
    pub stack: Vec<Address>,
    /// Area where values are stored.
    pub heap: Vec<Value>,
    /// Program code to be executed.
    pub code: Vec<Instruction>,
    /// Program counter.
    pub pc: usize,
    /// Address register.
    pub ar: usize,
}

impl View for Machine {
    type V = State;

    open spec fn view(&self) -> State {
        State { stack: self.stack@, heap: self.heap@, pc: self.pc as nat, ar: self.ar as nat }
    }
}

/// The state of a new machine: empty stack, every slot `Null`, both registers zero.
pub open spec fn initial(capacity: nat) -> State {
    State { stack: Seq::empty(), heap: Seq::new(capacity, |i: int| Value::Null), pc: 0, ar: 0 }
}

impl State {
    /// The address `depth` places below the top of the stack.
    pub open spec fn operand(self, depth: nat) -> Result<Address, Fault> {
        if depth < self.stack.len() {
            Ok(self.stack[self.stack.len() - 1 - depth])
        } else {
            Err(Fault::StackUnderflow)
        }
    }

    /// The value in a heap slot.
    pub open spec fn load(self, a: Address) -> Result<Value, Fault> {
        if a.0 < self.heap.len() {
            Ok(self.heap[a.0 as int])
        } else {
            Err(Fault::HeapOutOfBounds)
        }
    }

    /// The stack without its `count` topmost addresses.
    pub open spec fn below(self, count: nat) -> Seq<Address>
        recommends
            count <= self.stack.len(),
    {
        self.stack.take(self.stack.len() - count)
    }

    /// Writes `v` into the slot at the address register, pushes that slot's
    /// address on `rest` and moves the register on by one.
    pub open spec fn allocate(self, rest: Seq<Address>, v: Value) -> Result<State, Fault> {
        if self.ar < self.heap.len() {
            Ok(
                State {
                    stack: rest.push(Address(self.ar as usize)),
                    heap: self.heap.update(self.ar as int, v),
                    pc: self.pc + 1,
                    ar: self.ar + 1,
                },
            )
        } else {
            Err(Fault::HeapOutOfBounds)
        }
    }

    /// `Store(v)`.
    pub open spec fn store(self, v: Value) -> Result<State, Fault> {
        self.allocate(self.stack, v)
    }

    /// `Copy`: the popped slot's value is duplicated into a new slot.
    pub open spec fn copy(self) -> Result<State, Fault> {
        match self.operand(0) {
            Err(f) => Err(f),
            Ok(a) => match self.load(a) {
                Err(f) => Err(f),
                Ok(v) => self.allocate(self.below(1), v),
            },
        }
    }

    /// `Move`: as `Copy`, and the popped slot is then set to `Null`, also where
    /// it is the new slot itself.
    pub open spec fn relocate(self) -> Result<State, Fault> {
        match self.copy() {
            Err(f) => Err(f),
            Ok(s) => Ok(State { heap: s.heap.update(self.stack.last().0 as int, Value::Null), ..s }),
        }
    }

    /// `Ar`: the popped address becomes the address register.
    pub open spec fn set_ar(self) -> Result<State, Fault> {
        match self.operand(0) {
            Err(f) => Err(f),
            Ok(a) => Ok(State { stack: self.below(1), pc: self.pc + 1, ar: a.0 as nat, ..self }),
        }
    }

    /// `Push(lit)`.
    pub open spec fn push(self, lit: Address) -> Result<State, Fault> {
        Ok(State { stack: self.stack.push(lit), pc: self.pc + 1, ..self })
    }

    /// `Dup`: the top address is on the stack twice.
    pub open spec fn dup(self) -> Result<State, Fault> {
        match self.operand(0) {
            Err(f) => Err(f),
            Ok(a) => Ok(State { stack: self.stack.push(a), pc: self.pc + 1, ..self }),
        }
    }

    /// `Swap`: the two topmost addresses change places.
    pub open spec fn swap(self) -> Result<State, Fault> {
        match (self.operand(0), self.operand(1)) {
            (Ok(top), Ok(under)) => Ok(
                State { stack: self.below(2).push(top).push(under), pc: self.pc + 1, ..self },
            ),
            _ => Err(Fault::StackUnderflow),
        }
    }

    /// `Jump`: pops the condition's address, then the target. The jump is
    /// taken exactly when the condition slot holds `Bool(true)`; the program
    /// counter is then the target itself, else it moves on by one.
    pub open spec fn jump(self) -> Result<State, Fault> {
        match self.operand(0) {
            Err(f) => Err(f),
            Ok(c) => match self.load(c) {
                Err(f) => Err(f),
                Ok(v) => match self.operand(1) {
                    Err(f) => Err(f),
                    Ok(t) => Ok(
                        State {
                            stack: self.below(2),
                            pc: if v == Value::Bool(true) {
                                t.0 as nat
                            } else {
                                self.pc + 1
                            },
                            ..self
                        },
                    ),
                },
            },
        }
    }

    /// `Not`, `Inc`, `Dec`: the operand is popped; where it has the expected
    /// variant the slot is rewritten and its address pushed again.
    pub open spec fn rewrite(self, op: Unary) -> Result<State, Fault> {
        match self.operand(0) {
            Err(f) => Err(f),
            Ok(a) => match self.load(a) {
                Err(f) => Err(f),
                Ok(v) => self.conclude(self.below(1), a, unary_result(op, v)),
            },
        }
    }

    /// `Equal`, `Add`, `Sub`, `Mul`, `Div`: the right operand is on top, the
    /// left one under it. Both are popped; where both slots hold integers the
    /// result goes into the left operand's slot, whose address is pushed again.
    pub open spec fn combine(self, op: Operator) -> Result<State, Fault> {
        match self.operand(0) {
            Err(f) => Err(f),
            Ok(a) => match self.load(a) {
                Err(f) => Err(f),
                Ok(right) => match self.operand(1) {
                    Err(f) => Err(f),
                    Ok(base) => match self.load(base) {
                        Err(f) => Err(f),
                        Ok(left) => self.conclude(
                            self.below(2),
                            base,
                            binary_result(op, left, right),
                        ),
                    },
                },
            },
        }
    }

    /// The end of an arithmetic, comparison or logic instruction, with the
    /// operands gone from the stack (`rest`) and `target` the slot to write.
    pub open spec fn conclude(self, rest: Seq<Address>, target: Address, c: Computed) -> Result<
        State,
        Fault,
    > {
        match c {
            Computed::Written(v) => Ok(
                State {
                    stack: rest.push(target),
                    heap: self.heap.update(target.0 as int, v),
                    pc: self.pc + 1,
                    ..self
                },
            ),
            Computed::Skipped => Ok(State { stack: rest, pc: self.pc + 1, ..self }),
            Computed::Failed => Err(Fault::ArithmeticFault),
        }
    }

    /// The state after one instruction, or the fault that it raises.
    pub open spec fn execute(self, instruction: Instruction) -> Result<State, Fault> {
        match instruction {
            Instruction::Copy => self.copy(),
            Instruction::Move => self.relocate(),
            Instruction::Store(v) => self.store(v),
            Instruction::Ar => self.set_ar(),
            Instruction::Jump => self.jump(),
            Instruction::Push(lit) => self.push(lit),
            Instruction::Dup => self.dup(),
            Instruction::Swap => self.swap(),
            Instruction::Equal => self.combine(Operator::Equal),
            Instruction::Not => self.rewrite(Unary::Not),
            Instruction::Inc => self.rewrite(Unary::Inc),
            Instruction::Dec => self.rewrite(Unary::Dec),
            Instruction::Add => self.combine(Operator::Add),
            Instruction::Sub => self.combine(Operator::Sub),
            Instruction::Mul => self.combine(Operator::Mul),
            Instruction::Div => self.combine(Operator::Div),
        }
    }
}

/// The dispatch loop from state `s`, for at most `budget` instructions: the
/// state it ends in, and how it ended. A fault leaves the state that the
/// failing instruction found, so that the program counter names that instruction.
pub open spec fn run(code: Seq<Instruction>, s: State, budget: nat) -> (State, Outcome)
    decreases budget,
{
    if s.pc >= code.len() {
        (s, Outcome::Halted)
    } else if budget == 0 {
        (s, Outcome::Exhausted)
    } else {
        match s.execute(code[s.pc as int]) {
            Ok(next) => run(code, next, (budget - 1) as nat),
            Err(fault) => (s, Outcome::Faulted(fault)),
        }
    }
}

impl Machine {
    /// A machine for `code` with `capacity` heap slots.
    pub fn new(code: Vec<Instruction>, capacity: usize) -> (m: Machine)
        ensures
            m@ == initial(capacity as nat),
            m.code == code,
    {
        let mut heap: Vec<Value> = Vec::new();
        while heap.len() < capacity
            invariant
                heap@.len() <= capacity,
                forall|i: int| 0 <= i < heap@.len() ==> heap@[i] == Value::Null,
            decreases capacity - heap@.len(),
        {
            heap.push(Value::Null);
        }
        let m = Machine { stack: Vec::new(), heap, code, pc: 0, ar: 0 };
        assert(m@.heap =~= initial(capacity as nat).heap);
        assert(m@.stack =~= initial(capacity as nat).stack);
        m
    }

    /// A machine for `code` with `RAM_SPEC` heap slots.
    pub fn with_default_capacity(code: Vec<Instruction>) -> (m: Machine)
        ensures
            m@ == initial(RAM_SPEC as nat),
            m.code == code,
    {
        Machine::new(code, RAM_SPEC)
    }

    /// Pop the stack's top value. On an empty stack nothing changes.
    pub fn pop(&mut self) -> (r: Result<Address, Fault>)
        ensures
            r == old(self)@.operand(0),
            final(self).code == old(self).code,
            r is Ok ==> final(self)@ == (State { stack: old(self)@.below(1), ..old(self)@ }),
            r is Err ==> final(self)@ == old(self)@,
    {
        match self.stack.pop() {
            Some(a) => {
                assert(self.stack@ =~= old(self)@.below(1));
                Ok(a)
            },
            None => Err(Fault::StackUnderflow),
        }
    }

    /// The address `depth` places below the top of the stack.
    pub fn operand(&self, depth: usize) -> (r: Result<Address, Fault>)
        ensures
            r == self@.operand(depth as nat),
    {
        let n = self.stack.len();
        if depth < n {
            Ok(self.stack[n - 1 - depth])
        } else {
            Err(Fault::StackUnderflow)
        }
    }

    /// The value in a heap slot.
    pub fn load(&self, a: Address) -> (r: Result<Value, Fault>)
        ensures
            r == self@.load(a),
    {
        if a.0 < self.heap.len() {
            Ok(self.heap[a.0])
        } else {
            Err(Fault::HeapOutOfBounds)
        }
    }

    /// Drops the `count` topmost addresses.
    fn discard(&mut self, count: usize)
        requires
            count <= old(self).stack@.len(),
        ensures
            final(self)@ == (State { stack: old(self)@.below(count as nat), ..old(self)@ }),
            final(self).code == old(self).code,
    {
        let n = self.stack.len();
        self.stack.truncate(n - count);
        assert(self.stack@ =~= old(self)@.below(count as nat));
    }

    /// Writes `v` at the address register, pushes that address and moves the
    /// register on. The stack must already be without the operands.
    fn allocate(&mut self, v: Value, Ghost(before): Ghost<State>) -> (r: Result<(), Fault>)
        requires
            old(self)@ == (State { stack: old(self).stack@, ..before }),
            old(self).pc < old(self).code.len(),
        ensures
            final(self).code == old(self).code,
            match before.allocate(old(self).stack@, v) {
                Ok(next) => r is Ok && final(self)@ == next,
                Err(fault) => r == Err::<(), Fault>(fault) && final(self)@ == old(self)@,
            },
    {
        if self.ar < self.heap.len() {
            self.heap.set(self.ar, v);
            self.stack.push(Address(self.ar));
            self.ar = self.ar + 1;
            self.pc = self.pc + 1;
            Ok(())
        } else {
            Err(Fault::HeapOutOfBounds)
        }
    }

    /// Ends an arithmetic, comparison or logic instruction whose `count`
    /// operands are still on the stack.
    fn conclude(&mut self, count: usize, target: Address, c: Computed) -> (r: Result<(), Fault>)
        requires
            count <= old(self).stack@.len(),
            target.0 < old(self).heap@.len(),
            old(self).pc < old(self).code.len(),
        ensures
            final(self).code == old(self).code,
            match old(self)@.conclude(old(self)@.below(count as nat), target, c) {
                Ok(next) => r is Ok && final(self)@ == next,
                Err(fault) => r == Err::<(), Fault>(fault) && final(self)@ == old(self)@,
            },
    {
        match c {
            Computed::Written(v) => {
                self.discard(count);
                self.heap.set(target.0, v);
                self.stack.push(target);
                self.pc = self.pc + 1;
                Ok(())
            },
            Computed::Skipped => {
                self.discard(count);
                self.pc = self.pc + 1;
                Ok(())
            },
            Computed::Failed => Err(Fault::ArithmeticFault),
        }
    }

    fn combine(&mut self, op: Operator) -> (r: Result<(), Fault>)
        requires
            old(self).pc < old(self).code.len(),
        ensures
            final(self).code == old(self).code,
            match old(self)@.combine(op) {
                Ok(next) => r is Ok && final(self)@ == next,
                Err(fault) => r == Err::<(), Fault>(fault) && final(self)@ == old(self)@,
            },
    {
        let a = self.operand(0)?;
        let right = self.load(a)?;
        let base = self.operand(1)?;
        let left = self.load(base)?;
        self.conclude(2, base, binary(op, left, right))
    }

    fn rewrite(&mut self, op: Unary) -> (r: Result<(), Fault>)
        requires
            old(self).pc < old(self).code.len(),
        ensures
            final(self).code == old(self).code,
            match old(self)@.rewrite(op) {
                Ok(next) => r is Ok && final(self)@ == next,
                Err(fault) => r == Err::<(), Fault>(fault) && final(self)@ == old(self)@,
            },
    {
        let a = self.operand(0)?;
        let v = self.load(a)?;
        self.conclude(1, a, unary(op, v))
    }

    /// Executes the instruction at the program counter, if there is one.
    /// `Ok(false)` says that the program counter is past the program and
    /// nothing was done. A fault leaves the machine as it was.
    pub fn step(&mut self) -> (r: Result<bool, Fault>)
        ensures
            final(self).code == old(self).code,
            old(self).pc >= old(self).code.len() ==> r == Ok::<bool, Fault>(false) && final(self)@
                == old(self)@,
            old(self).pc < old(self).code.len() ==> (match old(self)@.execute(
                old(self).code@[old(self).pc as int],
            ) {
                Ok(next) => r == Ok::<bool, Fault>(true) && final(self)@ == next,
                Err(fault) => r == Err::<bool, Fault>(fault) && final(self)@ == old(self)@,
            }),
    {
        if self.pc >= self.code.len() {
            return Ok(false);
        }
        let ghost before = self@;
        let instruction = self.code[self.pc];
        match instruction {
            Instruction::Store(v) => {
                self.allocate(v, Ghost(before))?;
            },
            Instruction::Copy => {
                let a = self.operand(0)?;
                let v = self.load(a)?;
                if self.ar >= self.heap.len() {
                    return Err(Fault::HeapOutOfBounds);
                }
                self.discard(1);
                self.allocate(v, Ghost(before))?;
            },
            Instruction::Move => {
                let a = self.operand(0)?;
                let v = self.load(a)?;
                if self.ar >= self.heap.len() {
                    return Err(Fault::HeapOutOfBounds);
                }
                self.discard(1);
                self.allocate(v, Ghost(before))?;
                self.heap.set(a.0, Value::Null);
            },
            Instruction::Ar => {
                let a = self.pop()?;
                self.ar = a.0;
                self.pc = self.pc + 1;
            },
            Instruction::Jump => {
                let c = self.operand(0)?;
                let v = self.load(c)?;
                let t = self.operand(1)?;
                self.discard(2);
                match v {
                    Value::Bool(true) => {
                        self.pc = t.0;
                    },
                    _ => {
                        self.pc = self.pc + 1;
                    },
                }
            },
            Instruction::Push(lit) => {
                self.stack.push(lit);
                self.pc = self.pc + 1;
            },
            Instruction::Dup => {
                let a = self.operand(0)?;
                self.stack.push(a);
                self.pc = self.pc + 1;
            },
            Instruction::Swap => {
                let under = self.operand(1)?;
                let top = self.operand(0)?;
                self.discard(2);
                self.stack.push(top);
                self.stack.push(under);
                self.pc = self.pc + 1;
            },
            Instruction::Equal => {
                self.combine(Operator::Equal)?;
            },
            Instruction::Not => {
                self.rewrite(Unary::Not)?;
            },
            Instruction::Inc => {
                self.rewrite(Unary::Inc)?;
            },
            Instruction::Dec => {
                self.rewrite(Unary::Dec)?;
            },
            Instruction::Add => {
                self.combine(Operator::Add)?;
            },
            Instruction::Sub => {
                self.combine(Operator::Sub)?;
            },
            Instruction::Mul => {
                self.combine(Operator::Mul)?;
            },
            Instruction::Div => {
                self.combine(Operator::Div)?;
            },
        }
        Ok(true)
    }

    /// Start running the program, for at most `budget` instructions. The
    /// machine ends in the state, and the call returns the outcome, that the
    /// dispatch loop gives from the state the machine was in.
    pub fn start(&mut self, budget: u64) -> (outcome: Outcome)
        ensures
            final(self).code == old(self).code,
            (final(self)@, outcome) == run(old(self).code@, old(self)@, budget as nat),
    {
        let mut left: u64 = budget;
        loop
            invariant
                self.code == old(self).code,
                run(self.code@, self@, left as nat) == run(old(self).code@, old(self)@, budget as nat),
            decreases left,
        {
            if self.pc >= self.code.len() {
                return Outcome::Halted;
            }
            if left == 0 {
                return Outcome::Exhausted;
            }
            match self.step() {
                Ok(_) => {
                    left = left - 1;
                },
                Err(fault) => {
                    return Outcome::Faulted(fault);
                },
            }
        }
    }
}

} // verus!
