//! A three-flavor JIT code generator for register-allocated tapes of
//! arithmetic instructions, targeting AArch64.
//!
//! A *tape* is a finite, planned sequence of virtual instructions addressing a
//! small virtual register file plus a spill area.  This crate lowers a tape to
//! AArch64 machine code in three flavors: scalar point evaluation, 2-lane
//! interval evaluation (which records a *choice* byte per `min`/`max` node),
//! and 4-lane SIMD batch evaluation.  The emitted words are assembled into an
//! executable buffer; invoking the compiled code through its C-ABI entry point
//! is left to unverified callers.

use vstd::prelude::*;

pub mod choice;
pub mod driver;
pub mod enc;
pub mod exe;
pub mod float;
pub mod interval;
pub mod ops;
pub mod point;
pub mod stage2;
pub mod vector;
pub mod x86;

verus! {

/// Number of virtual registers available when executing natively.
///
/// The compiled code uses SIMD registers v8-v15 (callee saved) and v16-v31
/// (caller saved) to back them.
pub const REGISTER_LIMIT: u8 = 24;

/// Offset between a virtual register index and the physical register backing
/// it: virtual register `v` lives in physical register `v + OFFSET`.
pub const OFFSET: u8 = 8;

/// Physical register written by immediate loads.
///
/// It sits below [`OFFSET`], out of the range backing ordinary virtual
/// registers, and is chosen to avoid the scratch registers used by the
/// interval `mul` / `min` / `max` lowerings.
pub const IMM_REG: u8 = 6;

/// Virtual index of the reserved immediate register.
///
/// Subtracting [`OFFSET`] from [`IMM_REG`] wraps around, so the immediate
/// register is "negative" from the tape's point of view; adding [`OFFSET`]
/// back in [`reg`] recovers physical register 6.
pub const IMM_VREG: u8 = 254;

/// A virtual register index that [`reg`] accepts: an ordinary tape register
/// or the wrapped index of the reserved immediate register.
pub open spec fn valid_vreg(r: u8) -> bool {
    r < REGISTER_LIMIT || r == IMM_VREG
}

/// Physical register number backing virtual register `r`, with wraparound.
pub open spec fn spec_reg(r: u8) -> u32 {
    ((r + OFFSET) % 256) as u32
}

/// Converts from a tape-local register to an AArch64 register number.
///
/// Tape-local registers are in the range `0..REGISTER_LIMIT`, while the
/// machine registers have an offset (based on the calling convention).  The
/// wrapping addition supports immediates, which are loaded into a machine
/// register below [`OFFSET`].
pub fn reg(r: u8) -> (out: u32)
    requires
        valid_vreg(r),
    ensures
        out == spec_reg(r),
        out < 32,
{
    r.wrapping_add(OFFSET) as u32
}

} // verus!
