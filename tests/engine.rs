use befunge_core::direction::Direction;
use befunge_core::error::InterpreterError;
use befunge_core::grid::{Grid, CELLS};
use befunge_core::input::{byte_from_decimal, parse_input_int};
use befunge_core::instruction::Instruction;
use befunge_core::pointer::{Pointer, HEIGHT, WIDTH};
use befunge_core::state::{ArithOp, Effect, State};

/// A state over a grid of `>` cells with `row` written from `(0, 0)` on.
fn state_with_row(row: &[u8]) -> State {
    let mut grid = Grid::filled(b'>');
    for (x, b) in row.iter().enumerate() {
        grid.put(&Pointer { x, y: 0 }, *b);
    }
    State::new(grid)
}

fn state_with_cell(x: usize, y: usize, b: u8) -> State {
    let mut grid = Grid::filled(b'>');
    grid.put(&Pointer { x, y }, b);
    let mut s = State::new(grid);
    s.program_pointer = Pointer { x, y };
    s
}

#[test]
fn digit_push_then_pop_each_digit() {
    for d in 0u8..=9 {
        let mut s = state_with_row(&[b'0' + d]);
        assert_eq!(s.step_with(0), Ok(Effect::Continue));
        assert_eq!(s.stack.pop(), Some(d));
        assert!(s.stack.is_empty());
        assert_eq!(s.program_pointer, Pointer { x: 1, y: 0 });
    }
}

#[test]
fn addition_of_five_and_three() {
    let mut s = state_with_row(b"+");
    s.stack = vec![5, 3];
    assert_eq!(s.step_with(0), Ok(Effect::Continue));
    assert_eq!(s.stack, vec![8]);
}

#[test]
fn addition_wraps() {
    let mut s = state_with_row(b"+");
    s.stack = vec![200, 100];
    s.step_with(0).unwrap();
    assert_eq!(s.stack, vec![44]);
}

#[test]
fn subtraction_takes_top_minus_second() {
    let mut s = state_with_row(b"-");
    s.stack = vec![5, 3];
    assert_eq!(s.step_with(0), Ok(Effect::Continue));
    assert_eq!(s.stack, vec![254]);
}

#[test]
fn greater_than_compares_second_with_top() {
    let mut s = state_with_row(b"`");
    s.stack = vec![5, 3];
    assert_eq!(s.step_with(0), Ok(Effect::Continue));
    assert_eq!(s.stack, vec![1]);
    let mut s = state_with_row(b"`");
    s.stack = vec![3, 5];
    s.step_with(0).unwrap();
    assert_eq!(s.stack, vec![0]);
}

#[test]
fn multiplication_division_and_remainder() {
    let mut s = state_with_row(b"*");
    s.stack = vec![20, 13];
    s.step_with(0).unwrap();
    assert_eq!(s.stack, vec![4]);
    let mut s = state_with_row(b"/");
    s.stack = vec![3, 7];
    s.step_with(0).unwrap();
    assert_eq!(s.stack, vec![2]);
    let mut s = state_with_row(b"%");
    s.stack = vec![3, 7];
    s.step_with(0).unwrap();
    assert_eq!(s.stack, vec![1]);
}

#[test]
fn division_by_zero_fails_and_keeps_stack() {
    for op in [b'/', b'%'] {
        let mut s = state_with_row(&[op]);
        s.stack = vec![9, 0, 7];
        assert_eq!(s.step_with(0), Err(InterpreterError::DivisionByZero));
        assert_eq!(s.stack, vec![9, 0, 7]);
        assert_eq!(s.program_pointer, Pointer { x: 0, y: 0 });
    }
}

#[test]
fn stack_arithmetic_directly() {
    let mut s = state_with_row(b"");
    s.stack = vec![1, 5, 3];
    assert_eq!(s.stack_arithmetic(ArithOp::Sub), Ok(()));
    assert_eq!(s.stack, vec![1, 254]);
    assert_eq!(s.stack_arithmetic(ArithOp::Add), Ok(()));
    assert_eq!(s.stack, vec![255]);
    assert_eq!(s.stack_arithmetic(ArithOp::Mul), Err(InterpreterError::EmptyStack));
    assert_eq!(s.stack, vec![255]);
    s.stack = vec![0, 4];
    assert_eq!(s.stack_arithmetic(ArithOp::Rem), Err(InterpreterError::DivisionByZero));
    assert_eq!(s.stack, vec![0, 4]);
}

#[test]
fn put_then_get_same_cell() {
    let mut s = state_with_row(b"pg");
    s.stack = vec![42, 10, 3];
    assert_eq!(s.step_with(0), Ok(Effect::Continue));
    assert!(s.stack.is_empty());
    assert_eq!(s.program.get(&Pointer { x: 10, y: 3 }), 42);
    s.stack.push(10);
    s.stack.push(3);
    assert_eq!(s.step_with(0), Ok(Effect::Continue));
    assert_eq!(s.stack, vec![42]);
}

#[test]
fn put_off_grid_is_ignored() {
    let mut s = state_with_row(b"p");
    s.stack = vec![42, 80, 0];
    assert_eq!(s.step_with(0), Ok(Effect::Continue));
    assert!(s.stack.is_empty());
    for y in 0..HEIGHT {
        for x in 0..WIDTH {
            assert_eq!(s.program.get(&Pointer { x, y }), if x == 0 && y == 0 { b'p' } else { b'>' });
        }
    }
}

#[test]
fn get_off_grid_reads_zero() {
    let mut s = state_with_row(b"g");
    s.stack = vec![80, 0];
    assert_eq!(s.step_with(0), Ok(Effect::Continue));
    assert_eq!(s.stack, vec![0]);
    let mut s = state_with_row(b"g");
    s.stack = vec![0, 25];
    assert_eq!(s.step_with(0), Ok(Effect::Continue));
    assert_eq!(s.stack, vec![0]);
    let mut s = state_with_row(b"g");
    s.stack = vec![79, 24];
    s.step_with(0).unwrap();
    assert_eq!(s.stack, vec![b'>']);
}

#[test]
fn rightward_walk_stops_past_last_column() {
    let mut s = state_with_row(b"");
    for x in 0..WIDTH {
        assert_eq!(s.program_pointer.x, x);
        assert_eq!(s.step_with(0), Ok(Effect::Continue));
    }
    assert_eq!(s.program_pointer, Pointer { x: WIDTH, y: 0 });
    assert_eq!(s.step_with(0), Err(InterpreterError::OutOfBounds));
    assert_eq!(s.program_pointer, Pointer { x: WIDTH, y: 0 });
}

#[test]
fn string_mode_pushes_raw_bytes() {
    let mut s = state_with_row(b"\"A1 \"");
    assert_eq!(s.step_with(0), Ok(Effect::Continue));
    assert!(s.string_mode);
    assert!(s.stack.is_empty());
    for _ in 0..3 {
        s.step_with(0).unwrap();
    }
    assert_eq!(s.stack, vec![b'A', b'1', b' ']);
    assert!(s.string_mode);
    assert_eq!(s.step_with(0), Ok(Effect::Continue));
    assert!(!s.string_mode);
    assert_eq!(s.stack, vec![b'A', b'1', b' ']);
    assert_eq!(s.program_pointer, Pointer { x: 5, y: 0 });
}

#[test]
fn empty_stack_for_every_popping_opcode() {
    for op in b"+-*/%!`_|:\\$.,gp".iter() {
        let mut s = state_with_cell(5, 5, *op);
        assert_eq!(s.step_with(0), Err(InterpreterError::EmptyStack));
        assert!(s.stack.is_empty());
        assert_eq!(s.program_pointer, Pointer { x: 5, y: 5 });
    }
}

#[test]
fn short_stack_is_left_untouched() {
    for op in b"+-*/%`\\g".iter() {
        let mut s = state_with_cell(5, 5, *op);
        s.stack = vec![7];
        assert_eq!(s.step_with(0), Err(InterpreterError::EmptyStack));
        assert_eq!(s.stack, vec![7]);
    }
    let mut s = state_with_cell(5, 5, b'p');
    s.stack = vec![7, 8];
    assert_eq!(s.step_with(0), Err(InterpreterError::EmptyStack));
    assert_eq!(s.stack, vec![7, 8]);
}

#[test]
fn unknown_cell_is_invalid_instruction() {
    let mut s = state_with_row(b"x");
    assert_eq!(s.step_with(0), Err(InterpreterError::InvalidInstruction('x')));
    let mut s = state_with_row(b" ");
    assert_eq!(s.step_with(0), Err(InterpreterError::InvalidInstruction(' ')));
    let mut s = state_with_row(&[0xb2]);
    assert_eq!(s.step_with(0), Err(InterpreterError::InvalidInstruction('\u{b2}')));
    assert_eq!(s.program_pointer, Pointer { x: 0, y: 0 });
}

#[test]
fn decoder_maps_bytes() {
    assert_eq!(Instruction::from(b'+'), Instruction::Addition);
    assert_eq!(Instruction::from(b'\\'), Instruction::SwapTop);
    assert_eq!(Instruction::from(b'@'), Instruction::End);
    assert_eq!(Instruction::from(b'7'), Instruction::Num(7));
    assert_eq!(Instruction::from(b'a'), Instruction::Char('a'));
    assert_eq!(Instruction::from(0xbd), Instruction::Char('\u{bd}'));
}

#[test]
fn not_duplicate_swap_discard() {
    let mut s = state_with_row(b"!!:\\$");
    s.stack = vec![9, 0];
    s.step_with(0).unwrap();
    assert_eq!(s.stack, vec![9, 1]);
    s.step_with(0).unwrap();
    assert_eq!(s.stack, vec![9, 0]);
    s.step_with(0).unwrap();
    assert_eq!(s.stack, vec![9, 0, 0]);
    s.stack = vec![1, 2];
    s.step_with(0).unwrap();
    assert_eq!(s.stack, vec![2, 1]);
    s.step_with(0).unwrap();
    assert_eq!(s.stack, vec![2]);
}

#[test]
fn output_opcodes_report_values() {
    let mut s = state_with_row(b".,");
    s.stack = vec![65, 200];
    assert_eq!(s.step_with(0), Ok(Effect::PrintInt(200)));
    assert_eq!(s.step_with(0), Ok(Effect::PrintChar(65)));
    assert!(s.stack.is_empty());
    assert_eq!(s.program_pointer, Pointer { x: 2, y: 0 });
}

#[test]
fn input_opcodes_wait_for_input() {
    let mut s = state_with_row(b"&~");
    assert_eq!(s.step_with(0), Ok(Effect::ReadInt));
    assert_eq!(s.program_pointer, Pointer { x: 0, y: 0 });
    assert_eq!(s.resume_with_input(parse_input_int(" 42\n")), Ok(Effect::Continue));
    assert_eq!(s.stack, vec![42]);
    assert_eq!(s.step_with(0), Ok(Effect::ReadChar));
    assert_eq!(s.resume_with_input(None), Err(InterpreterError::NoInput));
    assert_eq!(s.program_pointer, Pointer { x: 1, y: 0 });
    assert_eq!(s.resume_with_input(Some(b'q')), Ok(Effect::Continue));
    assert_eq!(s.stack, vec![42, b'q']);
    assert_eq!(s.program_pointer, Pointer { x: 2, y: 0 });
}

#[test]
fn parsing_input_lines() {
    assert_eq!(parse_input_int("  17 \r\n"), Some(17));
    assert_eq!(parse_input_int("+7"), Some(7));
    assert_eq!(parse_input_int("255"), Some(255));
    assert_eq!(parse_input_int("256"), None);
    assert_eq!(parse_input_int("-1"), None);
    assert_eq!(parse_input_int("abc"), None);
    assert_eq!(parse_input_int(""), None);
    assert_eq!(parse_input_int("\u{3000}\t9\u{a0}\u{2029}"), Some(9));
    assert_eq!(parse_input_int("\u{200b}9"), None);
    assert_eq!(byte_from_decimal(" 3"), None);
    assert_eq!(byte_from_decimal("007"), Some(7));
}

#[test]
fn halt_leaves_state_alone() {
    let mut s = state_with_row(b"1@");
    s.step_with(0).unwrap();
    assert_eq!(s.step_with(0), Ok(Effect::Halted));
    assert_eq!(s.program_pointer, Pointer { x: 1, y: 0 });
    assert_eq!(s.stack, vec![1]);
}

#[test]
fn bridge_skips_next_cell() {
    let mut s = state_with_row(b"#x5");
    assert_eq!(s.step_with(0), Ok(Effect::Continue));
    assert_eq!(s.program_pointer, Pointer { x: 2, y: 0 });
    s.step_with(0).unwrap();
    assert_eq!(s.stack, vec![5]);
    let mut s = state_with_cell(WIDTH - 1, 0, b'#');
    assert_eq!(s.step_with(0), Err(InterpreterError::OutOfBounds));
    assert_eq!(s.program_pointer, Pointer { x: WIDTH - 1, y: 0 });
}

#[test]
fn direction_opcodes_and_conditionals() {
    let mut s = state_with_cell(5, 5, b'v');
    s.step_with(0).unwrap();
    assert_eq!((s.inertia, s.program_pointer), (Direction::Down, Pointer { x: 5, y: 6 }));
    let mut s = state_with_cell(5, 5, b'^');
    s.step_with(0).unwrap();
    assert_eq!((s.inertia, s.program_pointer), (Direction::Up, Pointer { x: 5, y: 4 }));
    let mut s = state_with_cell(5, 5, b'<');
    s.step_with(0).unwrap();
    assert_eq!((s.inertia, s.program_pointer), (Direction::Left, Pointer { x: 4, y: 5 }));
    let mut s = state_with_cell(5, 5, b'_');
    s.stack = vec![3];
    s.step_with(0).unwrap();
    assert_eq!((s.inertia, s.program_pointer), (Direction::Left, Pointer { x: 4, y: 5 }));
    let mut s = state_with_cell(5, 5, b'_');
    s.stack = vec![0];
    s.step_with(0).unwrap();
    assert_eq!((s.inertia, s.program_pointer), (Direction::Right, Pointer { x: 6, y: 5 }));
    let mut s = state_with_cell(5, 5, b'|');
    s.stack = vec![0];
    s.step_with(0).unwrap();
    assert_eq!((s.inertia, s.program_pointer), (Direction::Down, Pointer { x: 5, y: 6 }));
    let mut s = state_with_cell(5, 5, b'|');
    s.stack = vec![1];
    s.step_with(0).unwrap();
    assert_eq!((s.inertia, s.program_pointer), (Direction::Up, Pointer { x: 5, y: 4 }));
    assert!(s.stack.is_empty());
}

#[test]
fn random_heading_follows_the_draw() {
    let expected = [
        (Direction::Up, Pointer { x: 5, y: 4 }),
        (Direction::Down, Pointer { x: 5, y: 6 }),
        (Direction::Right, Pointer { x: 6, y: 5 }),
        (Direction::Left, Pointer { x: 4, y: 5 }),
    ];
    for (roll, want) in expected.iter().enumerate() {
        let mut s = state_with_cell(5, 5, b'?');
        assert_eq!(s.step_with(roll as u8), Ok(Effect::Continue));
        assert_eq!((s.inertia, s.program_pointer), *want);
    }
    assert_eq!(Direction::from_sample(200), Direction::Left);
}

#[test]
fn random_step_moves_one_cell() {
    for _ in 0..50 {
        let mut s = state_with_cell(5, 5, b'?');
        assert_eq!(s.step(), Ok(Effect::Continue));
        let p = s.program_pointer;
        let moved = (p.x as i64 - 5).abs() + (p.y as i64 - 5).abs();
        assert_eq!(moved, 1);
    }
}

#[test]
fn pointer_travel_boundaries() {
    let mut p = Pointer { x: WIDTH - 1, y: 0 };
    assert_eq!(p.travel(&Direction::Right), Ok(()));
    assert_eq!(p.x, WIDTH);
    assert_eq!(p.travel(&Direction::Right), Err(InterpreterError::OutOfBounds));
    assert_eq!(p.x, WIDTH);
    let mut p = Pointer { x: 0, y: HEIGHT - 1 };
    assert_eq!(p.travel(&Direction::Down), Ok(()));
    assert_eq!(p.y, HEIGHT);
    assert_eq!(p.travel(&Direction::Down), Err(InterpreterError::OutOfBounds));
    assert_eq!(p.travel(&Direction::Left), Err(InterpreterError::OutOfBounds));
    let mut p = Pointer { x: 3, y: 0 };
    assert_eq!(p.travel(&Direction::Up), Err(InterpreterError::OutOfBounds));
    assert_eq!(p, Pointer { x: 3, y: 0 });
}

#[test]
fn move_pointer_follows_inertia() {
    let mut s = state_with_row(b"");
    s.inertia = Direction::Down;
    assert_eq!(s.move_pointer(), Ok(()));
    assert_eq!(s.program_pointer, Pointer { x: 0, y: 1 });
    s.inertia = Direction::Left;
    assert_eq!(s.move_pointer(), Err(InterpreterError::OutOfBounds));
    assert_eq!(s.program_pointer, Pointer { x: 0, y: 1 });
}

#[test]
fn step_off_grid_fails() {
    let mut s = state_with_row(b"");
    s.program_pointer = Pointer { x: 3, y: HEIGHT };
    assert_eq!(s.step_with(0), Err(InterpreterError::OutOfBounds));
}

#[test]
fn grid_construction() {
    assert!(Grid::from_cells(vec![0; CELLS - 1]).is_none());
    let mut cells = vec![b' '; CELLS];
    cells[WIDTH + 2] = b'9';
    let g = Grid::from_cells(cells).unwrap();
    assert_eq!(g.get(&Pointer { x: 2, y: 1 }), b'9');
    assert_eq!(g.get(&Pointer { x: 1, y: 2 }), b' ');
    assert_eq!(g.len(), WIDTH * HEIGHT);
}

#[test]
fn fresh_state_and_messages() {
    let s = State::new(Grid::filled(0));
    assert_eq!(s.program_pointer, Pointer { x: 0, y: 0 });
    assert_eq!(s.inertia, Direction::Right);
    assert!(!s.string_mode && s.stack.is_empty());
    assert_eq!(InterpreterError::EmptyStack.message(), "Read from empty stack");
    assert_eq!(InterpreterError::DivisionByZero.message(), "Division by zero");
    assert_eq!(InterpreterError::OutOfBounds.message(), "Program pointer out of bounds");
    assert_eq!(InterpreterError::NoInput.message(), "No valid input given");
}

#[test]
fn invalid_instruction_message_names_the_character() {
    assert_eq!(InterpreterError::InvalidInstruction('x').message(), "Invalid instruction: 'x'");
    assert_eq!(InterpreterError::InvalidInstruction('\u{b2}').message(), "Invalid instruction: '\u{b2}'");
    let mut s = state_with_row(b"x");
    let err = s.step_with(0).unwrap_err();
    assert_eq!(err.message(), "Invalid instruction: 'x'");
}
