//! The instruction set and the decoding of opcode bytes.
use vstd::prelude::*;

verus! {

/// The nineteen instructions of the machine, one byte each.
#[derive(Clone, Copy, Debug, PartialEq, Eq, Structural)]
pub enum Opcode {
    ADR,
    TST,
    BF,
    ID,
    BE,
    CL,
    CI,
    OUT,
    CLL,
    BT,
    SET,
    R,
    END,
    STR,
    NUM,
    LB,
    GN1,
    GN2,
    B,
}

/// The instruction that a byte encodes, if any.
pub open spec fn opcode_of(b: u8) -> Option<Opcode> {
    if b == 1 {
        Some(Opcode::ADR)
    } else if b == 2 {
        Some(Opcode::TST)
    } else if b == 3 {
        Some(Opcode::BF)
    } else if b == 4 {
        Some(Opcode::ID)
    } else if b == 5 {
        Some(Opcode::BE)
    } else if b == 6 {
        Some(Opcode::CL)
    } else if b == 7 {
        Some(Opcode::CI)
    } else if b == 8 {
        Some(Opcode::OUT)
    } else if b == 9 {
        Some(Opcode::CLL)
    } else if b == 10 {
        Some(Opcode::BT)
    } else if b == 11 {
        Some(Opcode::SET)
    } else if b == 12 {
        Some(Opcode::R)
    } else if b == 13 {
        Some(Opcode::END)
    } else if b == 14 {
        Some(Opcode::STR)
    } else if b == 15 {
        Some(Opcode::NUM)
    } else if b == 16 {
        Some(Opcode::LB)
    } else if b == 17 {
        Some(Opcode::GN1)
    } else if b == 18 {
        Some(Opcode::GN2)
    } else if b == 19 {
        Some(Opcode::B)
    } else {
        None
    }
}

impl Opcode {
    /// Decodes an opcode byte; bytes outside 1..=19 encode nothing.
    pub fn from_byte(b: u8) -> (r: Option<Opcode>)
        ensures
            r == opcode_of(b),
    {
        match b {
            1 => Some(Opcode::ADR),
            2 => Some(Opcode::TST),
            3 => Some(Opcode::BF),
            4 => Some(Opcode::ID),
            5 => Some(Opcode::BE),
            6 => Some(Opcode::CL),
            7 => Some(Opcode::CI),
            8 => Some(Opcode::OUT),
            9 => Some(Opcode::CLL),
            10 => Some(Opcode::BT),
            11 => Some(Opcode::SET),
            12 => Some(Opcode::R),
            13 => Some(Opcode::END),
            14 => Some(Opcode::STR),
            15 => Some(Opcode::NUM),
            16 => Some(Opcode::LB),
            17 => Some(Opcode::GN1),
            18 => Some(Opcode::GN2),
            19 => Some(Opcode::B),
            _ => None,
        }
    }
}

} // verus!
