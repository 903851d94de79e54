use vstd::prelude::*;

verus! {

/// Every way a step can fail; each one ends the run.
#[derive(Debug, Clone, Copy, PartialEq, Eq, Structural)]
pub enum InterpreterError {
    /// The pointer would leave the grid, or stands outside it.
    OutOfBounds,
    /// An opcode needed more values than the stack holds.
    EmptyStack,
    /// An input opcode found nothing, or nothing that parses.
    NoInput,
    /// A byte that is neither an opcode nor a digit, met outside string mode.
    InvalidInstruction(char),
    /// Division or remainder with a zero divisor.
    DivisionByZero,
}

/// The description of an invalid instruction: the character in single
/// quotes after a fixed prefix.
pub open spec fn invalid_instruction_text(c: char) -> Seq<char> {
    "Invalid instruction: '"@ + seq![c] + "'"@
}

/// Relies on `format!` with a `char` argument: the character's text is the
/// character itself, set between the literal pieces.
#[verifier::external_body]
fn describe_invalid(c: char) -> (r: String)
    ensures
        r@ == invalid_instruction_text(c),
{
    format!("Invalid instruction: '{c}'")
}

/// The description of each failure.
pub open spec fn message_text(e: InterpreterError) -> Seq<char> {
    match e {
        InterpreterError::OutOfBounds => "Program pointer out of bounds"@,
        InterpreterError::EmptyStack => "Read from empty stack"@,
        InterpreterError::NoInput => "No valid input given"@,
        InterpreterError::InvalidInstruction(c) => invalid_instruction_text(c),
        InterpreterError::DivisionByZero => "Division by zero"@,
    }
}

impl InterpreterError {
    /// A human-readable description of the failure.
    pub fn message(&self) -> (r: String)
        ensures
            r@ == message_text(*self),
    {
        match self {
            InterpreterError::OutOfBounds => String::from_str("Program pointer out of bounds"),
            InterpreterError::EmptyStack => String::from_str("Read from empty stack"),
            InterpreterError::NoInput => String::from_str("No valid input given"),
            InterpreterError::InvalidInstruction(c) => describe_invalid(*c),
            InterpreterError::DivisionByZero => String::from_str("Division by zero"),
        }
    }
}

} // verus!
