//! Operand locations used by the single-pass code generator.

use vstd::prelude::*;

verus! {

/// Scale factor applied to an index register in a `Memory2` operand.
#[derive(Copy, Clone, Debug, PartialEq, Eq, PartialOrd, Ord, Hash)]
pub enum Multiplier {
    Zero,
    One,
    Two,
    Four,
    Height,
}

/// The scale factor a multiplier stands for.
pub open spec fn multiplier_factor(m: Multiplier) -> u8 {
    match m {
        Multiplier::Zero => 0,
        Multiplier::One => 1,
        Multiplier::Two => 2,
        Multiplier::Four => 4,
        Multiplier::Height => 8,
    }
}

impl Multiplier {
    /// The numeric scale factor of this multiplier (its discriminant).
    pub fn factor(self) -> (r: u8)
        ensures
            r == multiplier_factor(self),
    {
        match self {
            Multiplier::Zero => 0,
            Multiplier::One => 1,
            Multiplier::Two => 2,
            Multiplier::Four => 4,
            Multiplier::Height => 8,
        }
    }
}

/// An immediate value as seen by the code generator.
#[derive(Copy, Clone, Debug, PartialEq, Eq)]
pub enum Value {
    I8(i8),
    I32(i32),
    I64(i64),
}

/// Where an operand lives: a register, memory, or an immediate.
#[derive(Copy, Clone, Debug, PartialEq, Eq, PartialOrd, Ord, Hash)]
pub enum Location<R, S> {
    GPR(R),
    SIMD(S),
    Memory(R, i32),
    /// `R + R * Multiplier + i32`
    Memory2(R, R, Multiplier, i32),
    Imm8(u8),
    Imm32(u32),
    Imm64(u64),
    Empty,
}

/// The immediate that a location denotes, reinterpreted as a signed value of the same width.
pub open spec fn spec_imm_value<R, S>(l: Location<R, S>) -> Option<Value> {
    match l {
        Location::Imm8(imm) => Some(Value::I8(imm as i8)),
        Location::Imm32(imm) => Some(Value::I32(imm as i32)),
        Location::Imm64(imm) => Some(Value::I64(imm as i64)),
        _ => None,
    }
}

impl<R, S> Location<R, S> {
    /// Returns the immediate held by this location, if it is one.
    ///
    /// The unsigned immediate is reinterpreted as the signed integer of the same width
    /// (two's complement), so `Imm8(255)` gives `I8(-1)`.
    pub fn imm_value(&self) -> (r: Option<Value>)
        ensures
            r == spec_imm_value(*self),
            r matches Some(Value::I8(v)) ==> (self matches Location::Imm8(u) && v as int == (
                if u < 0x80 { u as int } else { u as int - 0x100 })),
            r matches Some(Value::I32(v)) ==> (self matches Location::Imm32(u) && v as int == (
                if u < 0x8000_0000 { u as int } else { u as int - 0x1_0000_0000 })),
            r matches Some(Value::I64(v)) ==> (self matches Location::Imm64(u) && v as int == (
                if u < 0x8000_0000_0000_0000 { u as int } else { u as int - 0x1_0000_0000_0000_0000 })),
    {
        match self {
            Location::Imm8(imm) => {
                let u: u8 = *imm;
                let v: i8 = u as i8;
                assert(v as int == (if u < 0x80 { u as int } else { u as int - 0x100 })) by (bit_vector)
                    requires
                        v == u as i8,
                ;
                Some(Value::I8(v))
            },
            Location::Imm32(imm) => {
                let u: u32 = *imm;
                let v: i32 = u as i32;
                assert(v as int == (if u < 0x8000_0000 { u as int } else { u as int - 0x1_0000_0000 }))
                    by (bit_vector)
                    requires
                        v == u as i32,
                ;
                Some(Value::I32(v))
            },
            Location::Imm64(imm) => {
                let u: u64 = *imm;
                let v: i64 = u as i64;
                assert(v as int == (if u < 0x8000_0000_0000_0000 { u as int } else { u as int
                    - 0x1_0000_0000_0000_0000 })) by (bit_vector)
                    requires
                        v == u as i64,
                ;
                Some(Value::I64(v))
            },
            _ => None,
        }
    }
}

/// A machine register.
pub trait Reg: Copy + Clone + Eq + PartialEq + core::fmt::Debug {
    fn is_callee_save(self) -> bool;

    fn is_reserved(self) -> bool;

    fn into_index(self) -> usize;

    fn from_index(i: usize) -> Result<Self, ()>;
}

/// The calling convention of a target: which registers exist and where arguments go.
pub trait Descriptor<R: Reg, S: Reg> {
    const FP: R;
    const VMCTX: R;
    const GPR_COUNT: usize;
    const SIMD_COUNT: usize;
    const WORD_SIZE: usize;
    const STACK_GROWS_DOWN: bool;
    const FP_STACK_ARG_OFFSET: i32;
    const ARG_REG_COUNT: usize;

    fn callee_save_gprs() -> Vec<R>;

    fn caller_save_gprs() -> Vec<R>;

    fn callee_save_simd() -> Vec<S>;

    fn caller_save_simd() -> Vec<S>;

    fn callee_param_location(n: usize) -> Location<R, S>;

    fn caller_arg_location(n: usize) -> Location<R, S>;

    fn return_location() -> Location<R, S>;
}

} // verus!
