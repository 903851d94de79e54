use vstd::prelude::*;

verus! {

/// A decoded cell: the opcode that a byte stands for outside string mode.
#[derive(Debug, Clone, Copy, PartialEq, Eq, Structural)]
pub enum Instruction {
    Addition,
    Subtraction,
    Multiplication,
    Division,
    Modulo,
    Not,
    GreaterThan,
    PCRight,
    PCLeft,
    PCUp,
    PCDown,
    PCRandom,
    HorizIf,
    VertIf,
    StrModeToggle,
    DupTop,
    SwapTop,
    Discard,
    OutputInt,
    OutputChar,
    Bridge,
    Get,
    Put,
    InputInt,
    InputChar,
    End,
    /// An ASCII digit, carrying its value `0..=9`.
    Num(u8),
    /// Any other byte, carried as the character of that code point.
    Char(char),
}

/// The opcode that byte `b` stands for.
pub open spec fn decode(b: u8) -> Instruction {
    if b == 0x2b { Instruction::Addition }            // '+'
    else if b == 0x2d { Instruction::Subtraction }    // '-'
    else if b == 0x2a { Instruction::Multiplication } // '*'
    else if b == 0x2f { Instruction::Division }       // '/'
    else if b == 0x25 { Instruction::Modulo }         // '%'
    else if b == 0x21 { Instruction::Not }            // '!'
    else if b == 0x60 { Instruction::GreaterThan }    // '`'
    else if b == 0x3e { Instruction::PCRight }        // '>'
    else if b == 0x3c { Instruction::PCLeft }         // '<'
    else if b == 0x5e { Instruction::PCUp }           // '^'
    else if b == 0x76 { Instruction::PCDown }         // 'v'
    else if b == 0x3f { Instruction::PCRandom }       // '?'
    else if b == 0x5f { Instruction::HorizIf }        // '_'
    else if b == 0x7c { Instruction::VertIf }         // '|'
    else if b == 0x22 { Instruction::StrModeToggle }  // '"'
    else if b == 0x3a { Instruction::DupTop }         // ':'
    else if b == 0x5c { Instruction::SwapTop }        // '\'
    else if b == 0x24 { Instruction::Discard }        // '$'
    else if b == 0x2e { Instruction::OutputInt }      // '.'
    else if b == 0x2c { Instruction::OutputChar }     // ','
    else if b == 0x23 { Instruction::Bridge }         // '#'
    else if b == 0x67 { Instruction::Get }            // 'g'
    else if b == 0x70 { Instruction::Put }            // 'p'
    else if b == 0x26 { Instruction::InputInt }       // '&'
    else if b == 0x7e { Instruction::InputChar }      // '~'
    else if b == 0x40 { Instruction::End }            // '@'
    else if 0x30 <= b && b <= 0x39 { Instruction::Num((b - 0x30) as u8) }
    else { Instruction::Char(b as char) }
}

impl vstd::std_specs::convert::FromSpecImpl<u8> for Instruction {
    open spec fn obeys_from_spec() -> bool {
        true
    }

    open spec fn from_spec(v: u8) -> Instruction {
        decode(v)
    }
}

impl From<u8> for Instruction {
    /// Decodes a grid byte.
    fn from(item: u8) -> (r: Instruction) {
        match item {
            0x2b => Instruction::Addition, // '+'
            0x2d => Instruction::Subtraction, // '-'
            0x2a => Instruction::Multiplication, // '*'
            0x2f => Instruction::Division, // '/'
            0x25 => Instruction::Modulo, // '%'
            0x21 => Instruction::Not, // '!'
            0x60 => Instruction::GreaterThan, // '`'
            0x3e => Instruction::PCRight, // '>'
            0x3c => Instruction::PCLeft, // '<'
            0x5e => Instruction::PCUp, // '^'
            0x76 => Instruction::PCDown, // 'v'
            0x3f => Instruction::PCRandom, // '?'
            0x5f => Instruction::HorizIf, // '_'
            0x7c => Instruction::VertIf, // '|'
            0x22 => Instruction::StrModeToggle, // '"'
            0x3a => Instruction::DupTop, // ':'
            0x5c => Instruction::SwapTop, // '\'
            0x24 => Instruction::Discard, // '$'
            0x2e => Instruction::OutputInt, // '.'
            0x2c => Instruction::OutputChar, // ','
            0x23 => Instruction::Bridge, // '#'
            0x67 => Instruction::Get, // 'g'
            0x70 => Instruction::Put, // 'p'
            0x26 => Instruction::InputInt, // '&'
            0x7e => Instruction::InputChar, // '~'
            0x40 => Instruction::End, // '@'
            0x30..=0x39 => Instruction::Num(item - 0x30), // '0'..='9'
            _ => Instruction::Char(item as char),
        }
    }
}

} // verus!
