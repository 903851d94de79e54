use crate::direction::Direction;
use crate::error::InterpreterError;
use crate::grid::{cell_index, CELLS};
use crate::instruction::{decode, Instruction};
use crate::pointer::WIDTH;
use crate::state::{
    after, drop_top, from_top, on_grid, read_cell, step_result, Effect, Machine, QUOTE,
};
use vstd::prelude::*;

verus! {

/// The byte under the pointer of `m`.
pub open spec fn current_cell(m: Machine) -> u8 {
    m.cells[cell_index(m.x, m.y)]
}

/// A machine whose pointer is on the grid, in normal mode, about to decode
/// the cell under it.
pub open spec fn decoding(m: Machine) -> bool {
    &&& m.cells.len() == CELLS
    &&& on_grid(m.x, m.y)
    &&& !m.string_mode
}

/// How many values an opcode pops before it can do anything.
pub open spec fn arity(ins: Instruction) -> int {
    match ins {
        Instruction::Addition | Instruction::Subtraction | Instruction::Multiplication
        | Instruction::Division | Instruction::Modulo | Instruction::GreaterThan
        | Instruction::SwapTop | Instruction::Get => 2,
        Instruction::Not | Instruction::HorizIf | Instruction::VertIf | Instruction::DupTop
        | Instruction::Discard | Instruction::OutputInt | Instruction::OutputChar => 1,
        Instruction::Put => 3,
        _ => 0,
    }
}

/// A digit cell pushes its value, and popping right after gives that value
/// back and leaves the stack as it was before the push.
pub proof fn law_digit_push_pop(m: Machine, roll: u8, d: u8)
    requires
        decoding(m),
        d <= 9,
        current_cell(m) == 0x30 + d,
        step_result(m, roll) is Ok,
    ensures
        decode(current_cell(m)) == Instruction::Num(d),
        step_result(m, roll) == Ok::<(Machine, Effect), InterpreterError>((
            Machine { stack: m.stack.push(d), ..after(m, step_result(m, roll)) },
            Effect::Continue,
        )),
        from_top(after(m, step_result(m, roll)).stack, 0) == d,
        drop_top(after(m, step_result(m, roll)).stack, 1) == m.stack,
{
    let n = after(m, step_result(m, roll));
    assert(drop_top(n.stack, 1) =~= m.stack);
}

/// A `p` that stores `v` at an on-grid `(x, y)`, followed by a `g` at the
/// same `(x, y)`, pushes `v`.
pub proof fn law_put_then_get(m: Machine, roll1: u8, roll2: u8, x: u8, y: u8, v: u8)
    requires
        decoding(m),
        current_cell(m) == 0x70,
        m.stack.len() >= 3,
        from_top(m.stack, 0) == y,
        from_top(m.stack, 1) == x,
        from_top(m.stack, 2) == v,
        on_grid(x as int, y as int),
        step_result(m, roll1) is Ok,
        ({
            let n = after(m, step_result(m, roll1));
            let g = Machine { stack: n.stack.push(x).push(y), ..n };
            decoding(g) && current_cell(g) == 0x67 && step_result(g, roll2) is Ok
        }),
    ensures
        ({
            let n = after(m, step_result(m, roll1));
            let g = Machine { stack: n.stack.push(x).push(y), ..n };
            let h = after(g, step_result(g, roll2));
            &&& read_cell(n.cells, x as int, y as int) == v
            &&& from_top(h.stack, 0) == v
            &&& drop_top(h.stack, 1) == n.stack
        }),
{
    let n = after(m, step_result(m, roll1));
    let g = Machine { stack: n.stack.push(x).push(y), ..n };
    let h = after(g, step_result(g, roll2));
    assert(drop_top(g.stack, 2) =~= n.stack);
    assert(drop_top(h.stack, 1) =~= n.stack);
}

/// A `g` at an off-grid `(x, y)` pushes zero and does not fail on that
/// account: it fails only where the move after it is refused.
pub proof fn law_get_off_grid(m: Machine, roll: u8)
    requires
        decoding(m),
        current_cell(m) == 0x67,
        m.stack.len() >= 2,
        !on_grid(from_top(m.stack, 1) as int, from_top(m.stack, 0) as int),
    ensures
        step_result(m, roll) is Ok || step_result(m, roll) == Err::<(Machine, Effect), InterpreterError>(
            InterpreterError::OutOfBounds,
        ),
        step_result(m, roll) is Ok ==> after(m, step_result(m, roll)).stack == drop_top(m.stack, 2).push(0),
{
}

/// Heading right over `>` cells, each step moves one column right; once the
/// pointer stands one past the last column, the next step fails with
/// `OutOfBounds` and changes nothing.
pub proof fn law_rightward_walk(m: Machine, roll: u8)
    requires
        m.cells.len() == CELLS,
        0 <= m.x <= WIDTH,
        on_grid(0, m.y),
        !m.string_mode,
        m.inertia == Direction::Right,
        m.x < WIDTH ==> current_cell(m) == 0x3e,
    ensures
        m.x < WIDTH ==> step_result(m, roll) == Ok::<(Machine, Effect), InterpreterError>((
            Machine { x: m.x + 1, ..m },
            Effect::Continue,
        )),
        m.x == WIDTH ==> step_result(m, roll) == Err::<(Machine, Effect), InterpreterError>(
            InterpreterError::OutOfBounds,
        ) && after(m, step_result(m, roll)) == m,
{
}

/// A quote outside string mode turns string mode on and pushes nothing.
pub proof fn law_quote_enters_string_mode(m: Machine, roll: u8)
    requires
        decoding(m),
        current_cell(m) == QUOTE,
        step_result(m, roll) is Ok,
    ensures
        after(m, step_result(m, roll)).string_mode,
        after(m, step_result(m, roll)).stack == m.stack,
{
}

/// In string mode every cell but the quote is pushed as it is, whatever
/// opcode it would decode to, and string mode stays on; the quote turns
/// string mode off and is not pushed.
pub proof fn law_string_mode_pushes_raw(m: Machine, roll: u8)
    requires
        m.cells.len() == CELLS,
        on_grid(m.x, m.y),
        m.string_mode,
        step_result(m, roll) is Ok,
    ensures
        current_cell(m) != QUOTE ==> after(m, step_result(m, roll)).stack == m.stack.push(current_cell(m))
            && after(m, step_result(m, roll)).string_mode,
        current_cell(m) == QUOTE ==> after(m, step_result(m, roll)).stack == m.stack
            && !after(m, step_result(m, roll)).string_mode,
        after(m, step_result(m, roll)).cells == m.cells,
        after(m, step_result(m, roll)).inertia == m.inertia,
{
}

/// Any opcode that pops, met with fewer values on the stack than it pops,
/// fails with `EmptyStack` and changes nothing.
pub proof fn law_short_stack(m: Machine, roll: u8)
    requires
        decoding(m),
        m.stack.len() < arity(decode(current_cell(m))),
    ensures
        step_result(m, roll) == Err::<(Machine, Effect), InterpreterError>(InterpreterError::EmptyStack),
        after(m, step_result(m, roll)) == m,
{
}

/// A byte that is neither an opcode nor a digit, met outside string mode,
/// fails with `InvalidInstruction` carrying that byte's character.
pub proof fn law_unknown_cell(m: Machine, roll: u8)
    requires
        decoding(m),
        decode(current_cell(m)) is Char,
    ensures
        step_result(m, roll) == Err::<(Machine, Effect), InterpreterError>(
            InterpreterError::InvalidInstruction(current_cell(m) as char),
        ),
        after(m, step_result(m, roll)) == m,
{
}

} // verus!
