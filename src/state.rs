use crate::direction::{direction_of_sample, Direction};
use crate::error::InterpreterError;
use crate::grid::{cell_index, Grid};
use crate::instruction::{decode, Instruction};
use crate::pointer::{travel_target, Pointer, HEIGHT, WIDTH};
use rand::Rng;
use vstd::prelude::*;

verus! {

/// The byte of the quote cell that toggles string mode.
pub const QUOTE: u8 = 0x22;

/// The abstract value of an execution state.
pub struct Machine {
    pub stack: Seq<u8>,
    pub cells: Seq<u8>,
    pub x: int,
    pub y: int,
    pub string_mode: bool,
    pub inertia: Direction,
}

/// What the caller has to do after a successful step.
#[derive(Debug, Clone, Copy, PartialEq, Eq, Structural)]
pub enum Effect {
    /// Nothing: the step is complete.
    Continue,
    /// Write the decimal form of the value.
    PrintInt(u8),
    /// Write the character whose code point is the value.
    PrintChar(u8),
    /// Read a line, parse it as a byte and hand it back through
    /// `resume_with_input`; the state has not moved yet.
    ReadInt,
    /// Read one byte and hand it back through `resume_with_input`; the
    /// state has not moved yet.
    ReadChar,
    /// The halt opcode was reached: the run is over and the state is left
    /// as it was.
    Halted,
}

/// The five wrapping arithmetic opcodes.
#[derive(Debug, Clone, Copy, PartialEq, Eq, Structural)]
pub enum ArithOp {
    Add,
    Sub,
    Mul,
    Div,
    Rem,
}

/// `op(a, b)` modulo 256, where `a` is the value that was on top; `None`
/// for a division or remainder by zero.
pub open spec fn arith_result(op: ArithOp, a: u8, b: u8) -> Option<u8> {
    match op {
        ArithOp::Add => Some(((a + b) % 256) as u8),
        ArithOp::Sub => Some(((a - b) % 256) as u8),
        ArithOp::Mul => Some(((a * b) % 256) as u8),
        ArithOp::Div => if b == 0 { None } else { Some((a / b) as u8) },
        ArithOp::Rem => if b == 0 { None } else { Some((a % b) as u8) },
    }
}

/// The value `k` places below the top of `s` (`k == 0` is the top).
pub open spec fn from_top(s: Seq<u8>, k: int) -> u8 {
    s[s.len() - 1 - k]
}

/// `s` with its top `k` values removed.
pub open spec fn drop_top(s: Seq<u8>, k: int) -> Seq<u8> {
    s.subrange(0, s.len() - k)
}

/// Whether `(x, y)` names a cell of the grid.
pub open spec fn on_grid(x: int, y: int) -> bool {
    0 <= x < WIDTH && 0 <= y < HEIGHT
}

/// The byte that the `g` opcode reads at `(x, y)`: zero off the grid.
pub open spec fn read_cell(cells: Seq<u8>, x: int, y: int) -> u8 {
    if on_grid(x, y) { cells[cell_index(x, y)] } else { 0 }
}

/// The cells after the `p` opcode writes `v` at `(x, y)`: unchanged off the
/// grid.
pub open spec fn write_cell(cells: Seq<u8>, x: int, y: int, v: u8) -> Seq<u8> {
    if on_grid(x, y) { cells.update(cell_index(x, y), v) } else { cells }
}

/// The end of every step that completes: one move along the current
/// heading, failing with `OutOfBounds` where the move is refused.
pub open spec fn settle(m: Machine, e: Effect) -> Result<(Machine, Effect), InterpreterError> {
    match travel_target(m.x, m.y, m.inertia) {
        Some((nx, ny)) => Ok((Machine { x: nx, y: ny, ..m }, e)),
        None => Err(InterpreterError::OutOfBounds),
    }
}

/// `m` with its stack replaced by `s`, then moved on.
pub open spec fn settle_stack(m: Machine, s: Seq<u8>) -> Result<(Machine, Effect), InterpreterError> {
    settle(Machine { stack: s, ..m }, Effect::Continue)
}

/// Fails with `EmptyStack` unless the stack holds at least `k` values.
pub open spec fn needs(m: Machine, k: int, r: Result<(Machine, Effect), InterpreterError>) -> Result<(Machine, Effect), InterpreterError> {
    if m.stack.len() < k { Err(InterpreterError::EmptyStack) } else { r }
}

/// What one decoded opcode does to `m` outside string mode; `roll` is the
/// draw from `0..=3` that a random heading uses.
pub open spec fn execute(m: Machine, ins: Instruction, roll: u8) -> Result<(Machine, Effect), InterpreterError> {
    let a = from_top(m.stack, 0);
    let b = from_top(m.stack, 1);
    let c = from_top(m.stack, 2);
    match ins {
        Instruction::Addition => arith_step(m, ArithOp::Add),
        Instruction::Subtraction => arith_step(m, ArithOp::Sub),
        Instruction::Multiplication => arith_step(m, ArithOp::Mul),
        Instruction::Division => arith_step(m, ArithOp::Div),
        Instruction::Modulo => arith_step(m, ArithOp::Rem),
        Instruction::Not => needs(m, 1, settle_stack(m, drop_top(m.stack, 1).push(if a == 0 { 1 } else { 0 }))),
        Instruction::GreaterThan => needs(m, 2, settle_stack(m, drop_top(m.stack, 2).push(if b > a { 1 } else { 0 }))),
        Instruction::PCRight => settle(Machine { inertia: Direction::Right, ..m }, Effect::Continue),
        Instruction::PCLeft => settle(Machine { inertia: Direction::Left, ..m }, Effect::Continue),
        Instruction::PCUp => settle(Machine { inertia: Direction::Up, ..m }, Effect::Continue),
        Instruction::PCDown => settle(Machine { inertia: Direction::Down, ..m }, Effect::Continue),
        Instruction::PCRandom => settle(Machine { inertia: direction_of_sample(roll), ..m }, Effect::Continue),
        Instruction::HorizIf => needs(m, 1, settle(Machine {
            stack: drop_top(m.stack, 1),
            inertia: if a == 0 { Direction::Right } else { Direction::Left },
            ..m
        }, Effect::Continue)),
        Instruction::VertIf => needs(m, 1, settle(Machine {
            stack: drop_top(m.stack, 1),
            inertia: if a == 0 { Direction::Down } else { Direction::Up },
            ..m
        }, Effect::Continue)),
        Instruction::StrModeToggle => settle(Machine { string_mode: !m.string_mode, ..m }, Effect::Continue),
        Instruction::DupTop => needs(m, 1, settle_stack(m, m.stack.push(a))),
        Instruction::SwapTop => needs(m, 2, settle_stack(m, drop_top(m.stack, 2).push(a).push(b))),
        Instruction::Discard => needs(m, 1, settle_stack(m, drop_top(m.stack, 1))),
        Instruction::OutputInt => needs(m, 1, settle(Machine { stack: drop_top(m.stack, 1), ..m }, Effect::PrintInt(a))),
        Instruction::OutputChar => needs(m, 1, settle(Machine { stack: drop_top(m.stack, 1), ..m }, Effect::PrintChar(a))),
        Instruction::Bridge => match travel_target(m.x, m.y, m.inertia) {
            Some((nx, ny)) => settle(Machine { x: nx, y: ny, ..m }, Effect::Continue),
            None => Err(InterpreterError::OutOfBounds),
        },
        Instruction::Get => needs(m, 2, settle_stack(m, drop_top(m.stack, 2).push(read_cell(m.cells, b as int, a as int)))),
        Instruction::Put => needs(m, 3, settle(Machine {
            stack: drop_top(m.stack, 3),
            cells: write_cell(m.cells, b as int, a as int, c),
            ..m
        }, Effect::Continue)),
        Instruction::InputInt => Ok((m, Effect::ReadInt)),
        Instruction::InputChar => Ok((m, Effect::ReadChar)),
        Instruction::End => Ok((m, Effect::Halted)),
        Instruction::Num(n) => settle_stack(m, m.stack.push(n)),
        Instruction::Char(ch) => Err(InterpreterError::InvalidInstruction(ch)),
    }
}

/// A binary arithmetic opcode: pop `a`, pop `b`, push `op(a, b)`.
pub open spec fn arith_step(m: Machine, op: ArithOp) -> Result<(Machine, Effect), InterpreterError> {
    if m.stack.len() < 2 {
        Err(InterpreterError::EmptyStack)
    } else {
        match arith_result(op, from_top(m.stack, 0), from_top(m.stack, 1)) {
            Some(v) => settle_stack(m, drop_top(m.stack, 2).push(v)),
            None => Err(InterpreterError::DivisionByZero),
        }
    }
}

/// One step from `m`: read the cell under the pointer, push it raw or toggle
/// string mode off in string mode, else decode and execute it; then move on.
/// A pointer off the grid fails with `OutOfBounds` before anything is read.
pub open spec fn step_result(m: Machine, roll: u8) -> Result<(Machine, Effect), InterpreterError> {
    if !on_grid(m.x, m.y) {
        Err(InterpreterError::OutOfBounds)
    } else {
        let cell = m.cells[cell_index(m.x, m.y)];
        if m.string_mode {
            if cell == QUOTE {
                settle(Machine { string_mode: false, ..m }, Effect::Continue)
            } else {
                settle_stack(m, m.stack.push(cell))
            }
        } else {
            execute(m, decode(cell), roll)
        }
    }
}

/// Completing an input opcode with what was read: `None` fails with
/// `NoInput`, a byte is pushed and the pointer moves on.
pub open spec fn resume_result(m: Machine, input: Option<u8>) -> Result<(Machine, Effect), InterpreterError> {
    match input {
        Some(v) => settle_stack(m, m.stack.push(v)),
        None => Err(InterpreterError::NoInput),
    }
}

/// The state after a step with result `r`: the new machine on success, the
/// old one unchanged on failure.
pub open spec fn after(m: Machine, r: Result<(Machine, Effect), InterpreterError>) -> Machine {
    match r {
        Ok((n, _)) => n,
        Err(_) => m,
    }
}

/// What a step with result `r` reports.
pub open spec fn outcome(r: Result<(Machine, Effect), InterpreterError>) -> Result<Effect, InterpreterError> {
    match r {
        Ok((_, e)) => Ok(e),
        Err(err) => Err(err),
    }
}

} // verus!

verus! {

/// The execution state: grid, pointer, stack, string-mode flag and heading.
pub struct State {
    pub stack: Vec<u8>,
    pub program: Grid,
    pub program_pointer: Pointer,
    pub string_mode: bool,
    pub inertia: Direction,
}

impl View for State {
    type V = Machine;

    open spec fn view(&self) -> Machine {
        Machine {
            stack: self.stack@,
            cells: self.program@,
            x: self.program_pointer.x as int,
            y: self.program_pointer.y as int,
            string_mode: self.string_mode,
            inertia: self.inertia,
        }
    }
}

/// Removing the top value and then `k` more is removing `k + 1`; what stood
/// `k` below the new top stood `k + 1` below the old one.
proof fn lemma_drop_one_more(s: Seq<u8>, k: int)
    requires
        0 <= k,
        k + 1 <= s.len(),
    ensures
        drop_top(drop_top(s, 1), k) == drop_top(s, k + 1),
        k + 1 < s.len() ==> from_top(drop_top(s, 1), k) == from_top(s, k + 1),
{
    assert(drop_top(drop_top(s, 1), k) =~= drop_top(s, k + 1));
}

impl State {
    /// A fresh state over `program`: pointer at `(0, 0)`, heading right,
    /// string mode off, empty stack.
    pub fn new(program: Grid) -> (r: State)
        ensures
            r@.stack == Seq::<u8>::empty(),
            r@.cells == program@,
            r@.x == 0 && r@.y == 0,
            !r@.string_mode,
            r@.inertia == Direction::Right,
    {
        State {
            stack: Vec::new(),
            program,
            program_pointer: Pointer { x: 0, y: 0 },
            string_mode: false,
            inertia: Direction::Right,
        }
    }

    /// Removes and returns the top of the stack.
    fn pop_top(&mut self) -> (r: u8)
        requires
            old(self).stack@.len() >= 1,
        ensures
            r == from_top(old(self).stack@, 0),
            final(self)@ == (Machine { stack: drop_top(old(self).stack@, 1), ..old(self)@ }),
    {
        let r = self.stack.pop();
        assert(self.stack@ =~= drop_top(old(self).stack@, 1));
        match r {
            Some(v) => v,
            None => 0,
        }
    }

    /// Where one move along `d` from the current pointer lands.
    fn next_pointer(&self, d: Direction) -> (r: Result<Pointer, InterpreterError>)
        ensures
            match travel_target(self@.x, self@.y, d) {
                Some((nx, ny)) => r matches Ok(p) && p.x == nx && p.y == ny,
                None => r == Err::<Pointer, InterpreterError>(InterpreterError::OutOfBounds),
            },
    {
        let mut p = self.program_pointer;
        match p.travel(&d) {
            Ok(()) => Ok(p),
            Err(e) => Err(e),
        }
    }

    /// Moves the pointer one cell along the current heading, or fails with
    /// `OutOfBounds` and leaves it where it is.
    pub fn move_pointer(&mut self) -> (r: Result<(), InterpreterError>)
        ensures
            match travel_target(old(self)@.x, old(self)@.y, old(self)@.inertia) {
                Some((nx, ny)) => r == Ok::<(), InterpreterError>(())
                    && final(self)@ == (Machine { x: nx, y: ny, ..old(self)@ }),
                None => r == Err::<(), InterpreterError>(InterpreterError::OutOfBounds)
                    && final(self)@ == old(self)@,
            },
    {
        let d = self.inertia;
        self.program_pointer.travel(&d)
    }

    /// Pops `a`, pops `b` and pushes `op(a, b)` modulo 256. With fewer than
    /// two values it fails with `EmptyStack`, and a division or remainder by
    /// a zero `b` fails with `DivisionByZero`; a failure changes nothing.
    pub fn stack_arithmetic(&mut self, op: ArithOp) -> (r: Result<(), InterpreterError>)
        ensures
            old(self).stack@.len() < 2 ==> r == Err::<(), InterpreterError>(InterpreterError::EmptyStack)
                && final(self)@ == old(self)@,
            old(self).stack@.len() >= 2 ==> match arith_result(
                op,
                from_top(old(self).stack@, 0),
                from_top(old(self).stack@, 1),
            ) {
                Some(v) => r == Ok::<(), InterpreterError>(())
                    && final(self)@ == (Machine { stack: drop_top(old(self).stack@, 2).push(v), ..old(self)@ }),
                None => r == Err::<(), InterpreterError>(InterpreterError::DivisionByZero)
                    && final(self)@ == old(self)@,
            },
    {
        let len = self.stack.len();
        if len < 2 {
            return Err(InterpreterError::EmptyStack);
        }
        let a = self.stack[len - 1];
        let b = self.stack[len - 2];
        let v: u8 = match op {
            ArithOp::Add => a.wrapping_add(b),
            ArithOp::Sub => a.wrapping_sub(b),
            ArithOp::Mul => a.wrapping_mul(b),
            ArithOp::Div => {
                if b == 0 {
                    return Err(InterpreterError::DivisionByZero);
                }
                a / b
            },
            ArithOp::Rem => {
                if b == 0 {
                    return Err(InterpreterError::DivisionByZero);
                }
                a % b
            },
        };
        proof {
            lemma_drop_one_more(self.stack@, 1);
        }
        self.pop_top();
        self.pop_top();
        self.stack.push(v);
        Ok(())
    }

    /// A binary arithmetic opcode followed by the move.
    fn arith_and_move(&mut self, op: ArithOp) -> (r: Result<Effect, InterpreterError>)
        ensures
            r == outcome(arith_step(old(self)@, op)),
            final(self)@ == after(old(self)@, arith_step(old(self)@, op)),
    {
        let len = self.stack.len();
        if len < 2 {
            return Err(InterpreterError::EmptyStack);
        }
        let b = self.stack[len - 2];
        if b == 0 && (op == ArithOp::Div || op == ArithOp::Rem) {
            return Err(InterpreterError::DivisionByZero);
        }
        let next = match self.next_pointer(self.inertia) {
            Ok(p) => p,
            Err(e) => return Err(e),
        };
        let _ = self.stack_arithmetic(op);
        self.program_pointer = next;
        Ok(Effect::Continue)
    }

    /// Sets the heading to `d`, then moves.
    fn turn_and_move(&mut self, d: Direction) -> (r: Result<Effect, InterpreterError>)
        ensures
            r == outcome(settle(Machine { inertia: d, ..old(self)@ }, Effect::Continue)),
            final(self)@ == after(old(self)@, settle(Machine { inertia: d, ..old(self)@ }, Effect::Continue)),
    {
        let next = match self.next_pointer(d) {
            Ok(p) => p,
            Err(e) => return Err(e),
        };
        self.inertia = d;
        self.program_pointer = next;
        Ok(Effect::Continue)
    }

    /// Toggles string mode, then moves.
    fn toggle_and_move(&mut self, ins: Instruction, roll: u8) -> (r: Result<Effect, InterpreterError>)
        requires
            ins == Instruction::StrModeToggle,
        ensures
            r == outcome(execute(old(self)@, ins, roll)),
            final(self)@ == after(old(self)@, execute(old(self)@, ins, roll)),
    {
        let next = match self.next_pointer(self.inertia) {
            Ok(p) => p,
            Err(e) => return Err(e),
        };
        self.string_mode = !self.string_mode;
        self.program_pointer = next;
        Ok(Effect::Continue)
    }

    /// An opcode that pops one value and pushes or reports what it makes of it, then moves.
    fn pop_one_and_move(&mut self, ins: Instruction, roll: u8) -> (r: Result<Effect, InterpreterError>)
        requires
            ins is Not || ins is DupTop || ins is Discard || ins is OutputInt || ins is OutputChar,
        ensures
            r == outcome(execute(old(self)@, ins, roll)),
            final(self)@ == after(old(self)@, execute(old(self)@, ins, roll)),
    {
        let len = self.stack.len();
        let ghost s = self.stack@;
        if len < 1 {
            return Err(InterpreterError::EmptyStack);
        }
        let next = match self.next_pointer(self.inertia) {
            Ok(p) => p,
            Err(e) => return Err(e),
        };
        let a = self.pop_top();
        let effect = match ins {
            Instruction::Not => {
                self.stack.push(if a == 0 { 1 } else { 0 });
                Effect::Continue
            },
            Instruction::DupTop => {
                self.stack.push(a);
                self.stack.push(a);
                proof {
                    assert(self.stack@ =~= s.push(a));
                }
                Effect::Continue
            },
            Instruction::OutputInt => Effect::PrintInt(a),
            Instruction::OutputChar => Effect::PrintChar(a),
            _ => Effect::Continue,
        };
        self.program_pointer = next;
        Ok(effect)
    }

    /// A conditional: pops one value and picks a heading by it, then moves.
    fn branch_and_move(&mut self, ins: Instruction, roll: u8) -> (r: Result<Effect, InterpreterError>)
        requires
            ins is HorizIf || ins is VertIf,
        ensures
            r == outcome(execute(old(self)@, ins, roll)),
            final(self)@ == after(old(self)@, execute(old(self)@, ins, roll)),
    {
        let len = self.stack.len();
        if len < 1 {
            return Err(InterpreterError::EmptyStack);
        }
        let a = self.stack[len - 1];
        let d = match ins {
            Instruction::HorizIf => if a == 0 { Direction::Right } else { Direction::Left },
            _ => if a == 0 { Direction::Down } else { Direction::Up },
        };
        let next = match self.next_pointer(d) {
            Ok(p) => p,
            Err(e) => return Err(e),
        };
        self.pop_top();
        self.inertia = d;
        self.program_pointer = next;
        Ok(Effect::Continue)
    }

    /// An opcode that pops two values and pushes what it makes of them, then moves.
    fn pop_two_and_move(&mut self, ins: Instruction, roll: u8) -> (r: Result<Effect, InterpreterError>)
        requires
            ins is GreaterThan || ins is SwapTop || ins is Get,
        ensures
            r == outcome(execute(old(self)@, ins, roll)),
            final(self)@ == after(old(self)@, execute(old(self)@, ins, roll)),
    {
        let len = self.stack.len();
        let ghost s = self.stack@;
        if len < 2 {
            return Err(InterpreterError::EmptyStack);
        }
        let next = match self.next_pointer(self.inertia) {
            Ok(p) => p,
            Err(e) => return Err(e),
        };
        proof {
            lemma_drop_one_more(s, 1);
        }
        let a = self.pop_top();
        let b = self.pop_top();
        match ins {
            Instruction::GreaterThan => {
                self.stack.push(if b > a { 1 } else { 0 });
            },
            Instruction::SwapTop => {
                self.stack.push(a);
                self.stack.push(b);
            },
            _ => {
                let x = b as usize;
                let y = a as usize;
                let v = if x >= WIDTH || y >= HEIGHT {
                    0
                } else {
                    self.program.get(&Pointer { x, y })
                };
                self.stack.push(v);
            },
        };
        self.program_pointer = next;
        Ok(Effect::Continue)
    }

    /// Pops `y`, `x` and a value, writes the value at `(x, y)`, then moves.
    fn put_and_move(&mut self, ins: Instruction, roll: u8) -> (r: Result<Effect, InterpreterError>)
        requires
            ins == Instruction::Put,
        ensures
            r == outcome(execute(old(self)@, ins, roll)),
            final(self)@ == after(old(self)@, execute(old(self)@, ins, roll)),
    {
        let len = self.stack.len();
        let ghost s = self.stack@;
        if len < 3 {
            return Err(InterpreterError::EmptyStack);
        }
        let next = match self.next_pointer(self.inertia) {
            Ok(p) => p,
            Err(e) => return Err(e),
        };
        proof {
            lemma_drop_one_more(s, 1);
            lemma_drop_one_more(s, 2);
            lemma_drop_one_more(drop_top(s, 1), 1);
        }
        let y = self.pop_top();
        let x = self.pop_top();
        let v = self.pop_top();
        self.program.put(&Pointer { x: x as usize, y: y as usize }, v);
        self.program_pointer = next;
        Ok(Effect::Continue)
    }

    /// Moves twice, skipping the next cell.
    fn bridge_and_move(&mut self, ins: Instruction, roll: u8) -> (r: Result<Effect, InterpreterError>)
        requires
            ins == Instruction::Bridge,
        ensures
            r == outcome(execute(old(self)@, ins, roll)),
            final(self)@ == after(old(self)@, execute(old(self)@, ins, roll)),
    {
        let first = match self.next_pointer(self.inertia) {
            Ok(p) => p,
            Err(e) => return Err(e),
        };
        let mut second = first;
        match second.travel(&self.inertia) {
            Ok(()) => {},
            Err(e) => return Err(e),
        }
        self.program_pointer = second;
        Ok(Effect::Continue)
    }

    /// Carries out one decoded opcode outside string mode.
    fn execute_instruction(&mut self, ins: Instruction, roll: u8) -> (r: Result<Effect, InterpreterError>)
        ensures
            r == outcome(execute(old(self)@, ins, roll)),
            final(self)@ == after(old(self)@, execute(old(self)@, ins, roll)),
    {
        match ins {
            Instruction::Addition => self.arith_and_move(ArithOp::Add),
            Instruction::Subtraction => self.arith_and_move(ArithOp::Sub),
            Instruction::Multiplication => self.arith_and_move(ArithOp::Mul),
            Instruction::Division => self.arith_and_move(ArithOp::Div),
            Instruction::Modulo => self.arith_and_move(ArithOp::Rem),
            Instruction::PCRight => self.turn_and_move(Direction::Right),
            Instruction::PCLeft => self.turn_and_move(Direction::Left),
            Instruction::PCUp => self.turn_and_move(Direction::Up),
            Instruction::PCDown => self.turn_and_move(Direction::Down),
            Instruction::PCRandom => self.turn_and_move(Direction::from_sample(roll)),
            Instruction::StrModeToggle => self.toggle_and_move(ins, roll),
            Instruction::Not | Instruction::DupTop | Instruction::Discard
            | Instruction::OutputInt | Instruction::OutputChar => self.pop_one_and_move(ins, roll),
            Instruction::HorizIf | Instruction::VertIf => self.branch_and_move(ins, roll),
            Instruction::GreaterThan | Instruction::SwapTop | Instruction::Get => self.pop_two_and_move(ins, roll),
            Instruction::Put => self.put_and_move(ins, roll),
            Instruction::Bridge => self.bridge_and_move(ins, roll),
            Instruction::InputInt => Ok(Effect::ReadInt),
            Instruction::InputChar => Ok(Effect::ReadChar),
            Instruction::End => Ok(Effect::Halted),
            Instruction::Num(n) => {
                let next = match self.next_pointer(self.inertia) {
                    Ok(p) => p,
                    Err(e) => return Err(e),
                };
                self.stack.push(n);
                self.program_pointer = next;
                Ok(Effect::Continue)
            },
            Instruction::Char(ch) => Err(InterpreterError::InvalidInstruction(ch)),
        }
    }

    /// One step, with `roll` standing for the draw from `0..=3` that a `?`
    /// cell turns into a heading. On failure nothing changes.
    pub fn step_with(&mut self, roll: u8) -> (r: Result<Effect, InterpreterError>)
        ensures
            r == outcome(step_result(old(self)@, roll)),
            final(self)@ == after(old(self)@, step_result(old(self)@, roll)),
    {
        if self.program_pointer.x >= WIDTH || self.program_pointer.y >= HEIGHT {
            return Err(InterpreterError::OutOfBounds);
        }
        let cell = self.program.get(&self.program_pointer);
        if self.string_mode {
            let next = match self.next_pointer(self.inertia) {
                Ok(p) => p,
                Err(e) => return Err(e),
            };
            if cell == QUOTE {
                self.string_mode = false;
            } else {
                self.stack.push(cell);
            }
            self.program_pointer = next;
            Ok(Effect::Continue)
        } else {
            self.execute_instruction(Instruction::from(cell), roll)
        }
    }

    /// One step, drawing the heading of a `?` cell uniformly at random.
    /// Whatever is drawn, the step is one of those `step_with` describes.
    pub fn step(&mut self) -> (r: Result<Effect, InterpreterError>)
        ensures
            exists|roll: u8|
                roll <= 3 && r == outcome(#[trigger] step_result(old(self)@, roll))
                    && final(self)@ == after(old(self)@, step_result(old(self)@, roll)),
    {
        let roll = random_quarter();
        self.step_with(roll)
    }

    /// Completes a step that asked for input (`ReadInt` or `ReadChar`):
    /// `None` fails with `NoInput`; a value is pushed and the pointer moves
    /// on. On failure nothing changes.
    pub fn resume_with_input(&mut self, input: Option<u8>) -> (r: Result<Effect, InterpreterError>)
        ensures
            r == outcome(resume_result(old(self)@, input)),
            final(self)@ == after(old(self)@, resume_result(old(self)@, input)),
    {
        match input {
            None => Err(InterpreterError::NoInput),
            Some(v) => {
                let next = match self.next_pointer(self.inertia) {
                    Ok(p) => p,
                    Err(e) => return Err(e),
                };
                self.stack.push(v);
                self.program_pointer = next;
                Ok(Effect::Continue)
            },
        }
    }
}

/// Relies on rand's `thread_rng` and `Rng::gen_range` over `0..=3`: a draw
/// that is one of 0, 1, 2 or 3.
#[verifier::external_body]
fn random_quarter() -> (r: u8)
    ensures
        r <= 3,
{
    rand::thread_rng().gen_range(0..=3)
}

} // verus!
