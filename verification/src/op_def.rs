//! Operators of the constraint language shared with the solver, and the
//! operation codes the instrumentation reports.

use vstd::prelude::*;

verus! {

/// An operator of the constraint language.
#[derive(Debug, Clone, Copy, PartialEq, Eq, Structural)]
pub enum RGD {
    /// A boolean constant.
    Bool,
    /// A constant.
    Constant,
    /// A read of input bytes.
    Read,
    /// Concatenation.
    Concat,
    /// Extraction of bits.
    Extract,
    /// Zero extension.
    ZExt,
    /// Sign extension.
    SExt,
    /// Addition.
    Add,
    /// Subtraction.
    Sub,
    /// Multiplication.
    Mul,
    /// Unsigned division.
    UDiv,
    /// Signed division.
    SDiv,
    /// Unsigned remainder.
    URem,
    /// Signed remainder.
    SRem,
    /// Negation.
    Neg,
    /// Bitwise not.
    Not,
    /// Bitwise and.
    And,
    /// Bitwise or.
    Or,
    /// Bitwise exclusive or.
    Xor,
    /// Shift left.
    Shl,
    /// Logical shift right.
    LShr,
    /// Arithmetic shift right.
    AShr,
    /// Equality.
    Equal,
    /// Inequality.
    Distinct,
    /// Unsigned less than.
    Ult,
    /// Unsigned less or equal.
    Ule,
    /// Unsigned greater than.
    Ugt,
    /// Unsigned greater or equal.
    Uge,
    /// Signed less than.
    Slt,
    /// Signed less or equal.
    Sle,
    /// Signed greater than.
    Sgt,
    /// Signed greater or equal.
    Sge,
    /// Logical or.
    LOr,
    /// Logical and.
    LAnd,
    /// Logical not.
    LNot,
    /// If-then-else.
    Ite,
    /// A load from memory.
    Load,
    /// A comparison of memory.
    Memcmp,
}

/// The number an operator is exchanged as: its position in the list,
/// from zero.
pub open spec fn rgd_code(op: RGD) -> u32 {
    match op {
        RGD::Bool => 0,
        RGD::Constant => 1,
        RGD::Read => 2,
        RGD::Concat => 3,
        RGD::Extract => 4,
        RGD::ZExt => 5,
        RGD::SExt => 6,
        RGD::Add => 7,
        RGD::Sub => 8,
        RGD::Mul => 9,
        RGD::UDiv => 10,
        RGD::SDiv => 11,
        RGD::URem => 12,
        RGD::SRem => 13,
        RGD::Neg => 14,
        RGD::Not => 15,
        RGD::And => 16,
        RGD::Or => 17,
        RGD::Xor => 18,
        RGD::Shl => 19,
        RGD::LShr => 20,
        RGD::AShr => 21,
        RGD::Equal => 22,
        RGD::Distinct => 23,
        RGD::Ult => 24,
        RGD::Ule => 25,
        RGD::Ugt => 26,
        RGD::Uge => 27,
        RGD::Slt => 28,
        RGD::Sle => 29,
        RGD::Sgt => 30,
        RGD::Sge => 31,
        RGD::LOr => 32,
        RGD::LAnd => 33,
        RGD::LNot => 34,
        RGD::Ite => 35,
        RGD::Load => 36,
        RGD::Memcmp => 37,
    }
}

impl RGD {
    /// The number this operator is exchanged as.
    pub fn code(&self) -> (r: u32)
        ensures
            r == rgd_code(*self),
            r < 38,
    {
        match self {
            RGD::Bool => 0,
            RGD::Constant => 1,
            RGD::Read => 2,
            RGD::Concat => 3,
            RGD::Extract => 4,
            RGD::ZExt => 5,
            RGD::SExt => 6,
            RGD::Add => 7,
            RGD::Sub => 8,
            RGD::Mul => 9,
            RGD::UDiv => 10,
            RGD::SDiv => 11,
            RGD::URem => 12,
            RGD::SRem => 13,
            RGD::Neg => 14,
            RGD::Not => 15,
            RGD::And => 16,
            RGD::Or => 17,
            RGD::Xor => 18,
            RGD::Shl => 19,
            RGD::LShr => 20,
            RGD::AShr => 21,
            RGD::Equal => 22,
            RGD::Distinct => 23,
            RGD::Ult => 24,
            RGD::Ule => 25,
            RGD::Ugt => 26,
            RGD::Uge => 27,
            RGD::Slt => 28,
            RGD::Sle => 29,
            RGD::Sgt => 30,
            RGD::Sge => 31,
            RGD::LOr => 32,
            RGD::LAnd => 33,
            RGD::LNot => 34,
            RGD::Ite => 35,
            RGD::Load => 36,
            RGD::Memcmp => 37,
        }
    }

    /// The operator exchanged as `n`; `None` where `n` stands for none.
    pub fn from_u32(n: u32) -> (r: Option<RGD>)
        ensures
            r is Some <==> n < 38,
            r is Some ==> rgd_code(r.unwrap()) == n,
    {
        if n == 0 {
            Some(RGD::Bool)
        } else if n == 1 {
            Some(RGD::Constant)
        } else if n == 2 {
            Some(RGD::Read)
        } else if n == 3 {
            Some(RGD::Concat)
        } else if n == 4 {
            Some(RGD::Extract)
        } else if n == 5 {
            Some(RGD::ZExt)
        } else if n == 6 {
            Some(RGD::SExt)
        } else if n == 7 {
            Some(RGD::Add)
        } else if n == 8 {
            Some(RGD::Sub)
        } else if n == 9 {
            Some(RGD::Mul)
        } else if n == 10 {
            Some(RGD::UDiv)
        } else if n == 11 {
            Some(RGD::SDiv)
        } else if n == 12 {
            Some(RGD::URem)
        } else if n == 13 {
            Some(RGD::SRem)
        } else if n == 14 {
            Some(RGD::Neg)
        } else if n == 15 {
            Some(RGD::Not)
        } else if n == 16 {
            Some(RGD::And)
        } else if n == 17 {
            Some(RGD::Or)
        } else if n == 18 {
            Some(RGD::Xor)
        } else if n == 19 {
            Some(RGD::Shl)
        } else if n == 20 {
            Some(RGD::LShr)
        } else if n == 21 {
            Some(RGD::AShr)
        } else if n == 22 {
            Some(RGD::Equal)
        } else if n == 23 {
            Some(RGD::Distinct)
        } else if n == 24 {
            Some(RGD::Ult)
        } else if n == 25 {
            Some(RGD::Ule)
        } else if n == 26 {
            Some(RGD::Ugt)
        } else if n == 27 {
            Some(RGD::Uge)
        } else if n == 28 {
            Some(RGD::Slt)
        } else if n == 29 {
            Some(RGD::Sle)
        } else if n == 30 {
            Some(RGD::Sgt)
        } else if n == 31 {
            Some(RGD::Sge)
        } else if n == 32 {
            Some(RGD::LOr)
        } else if n == 33 {
            Some(RGD::LAnd)
        } else if n == 34 {
            Some(RGD::LNot)
        } else if n == 35 {
            Some(RGD::Ite)
        } else if n == 36 {
            Some(RGD::Load)
        } else if n == 37 {
            Some(RGD::Memcmp)
        } else {
            None
        }
    }
}

/// Offset between a constant's label and its index.
pub const CONST_OFFSET: u32 = 1;

/// Operation code reported for `read`.
pub const DFSAN_READ: u32 = 0;

/// Operation code reported for `not`.
pub const DFSAN_NOT: u32 = 1;

/// Operation code reported for `neg`.
pub const DFSAN_NEG: u32 = 2;

/// Operation code reported for `add`.
pub const DFSAN_ADD: u32 = 11;

/// Operation code reported for `sub`.
pub const DFSAN_SUB: u32 = 13;

/// Operation code reported for `mul`.
pub const DFSAN_MUL: u32 = 15;

/// Operation code reported for `udiv`.
pub const DFSAN_UDIV: u32 = 17;

/// Operation code reported for `sdiv`.
pub const DFSAN_SDIV: u32 = 18;

/// Operation code reported for `urem`.
pub const DFSAN_UREM: u32 = 20;

/// Operation code reported for `srem`.
pub const DFSAN_SREM: u32 = 21;

/// Operation code reported for `shl`.
pub const DFSAN_SHL: u32 = 23;

/// Operation code reported for `lshr`.
pub const DFSAN_LSHR: u32 = 24;

/// Operation code reported for `ashr`.
pub const DFSAN_ASHR: u32 = 25;

/// Operation code reported for `and`.
pub const DFSAN_AND: u32 = 26;

/// Operation code reported for `or`.
pub const DFSAN_OR: u32 = 27;

/// Operation code reported for `xor`.
pub const DFSAN_XOR: u32 = 28;

/// Operation code reported for `trunc`.
pub const DFSAN_TRUNC: u32 = 36;

/// Operation code reported for `zext`.
pub const DFSAN_ZEXT: u32 = 37;

/// Operation code reported for `sext`.
pub const DFSAN_SEXT: u32 = 38;

/// Operation code reported for `load`.
pub const DFSAN_LOAD: u32 = 67;

/// Operation code reported for `extract`.
pub const DFSAN_EXTRACT: u32 = 68;

/// Operation code reported for `concat`.
pub const DFSAN_CONCAT: u32 = 69;

/// Operation code reported for `bveq`.
pub const DFSAN_BVEQ: u32 = 32;

/// Operation code reported for `bvneq`.
pub const DFSAN_BVNEQ: u32 = 33;

/// Operation code reported for `bvugt`.
pub const DFSAN_BVUGT: u32 = 34;

/// Operation code reported for `bvuge`.
pub const DFSAN_BVUGE: u32 = 35;

/// Operation code reported for `bvult`.
pub const DFSAN_BVULT: u32 = 36;

/// Operation code reported for `bvule`.
pub const DFSAN_BVULE: u32 = 37;

/// Operation code reported for `bvsgt`.
pub const DFSAN_BVSGT: u32 = 38;

/// Operation code reported for `bvsge`.
pub const DFSAN_BVSGE: u32 = 39;

/// Operation code reported for `bvslt`.
pub const DFSAN_BVSLT: u32 = 40;

/// Operation code reported for `bvsle`.
pub const DFSAN_BVSLE: u32 = 41;

} // verus!
