//! AArch64 instruction encodings used by the assemblers.
//!
//! Each spec function gives the 32-bit word for one instruction form, written
//! as a base value plus register and immediate fields shifted into place
//! (`rd` at bit 0, `rn` at bit 5, `rm` at bit 16, load/store immediates at
//! bit 10).  Instructions whose operands are fixed scratch registers are
//! plain constants.  The executable assemblers compute the same sums; the
//! verifier checks that each emitted word equals its specification.

use vstd::prelude::*;

verus! {

// Condition codes for conditional branches.
pub const COND_EQ: u32 = 0;
pub const COND_NE: u32 = 1;
pub const COND_MI: u32 = 4;
pub const COND_GT: u32 = 12;

// Scalar floating-point, one source register (`op Sd, Sn` / `op Dd, Dn`).
pub const FMOV_S: u32 = 0x1E20_4000;
pub const FABS_S: u32 = 0x1E20_C000;
pub const FNEG_S: u32 = 0x1E21_4000;
pub const FSQRT_S: u32 = 0x1E21_C000;
pub const FMOV_D: u32 = 0x1E60_4000;

// Scalar floating-point, two source registers (`op Sd, Sn, Sm`).
pub const FMUL_S: u32 = 0x1E20_0800;
pub const FDIV_S: u32 = 0x1E20_1800;
pub const FADD_S: u32 = 0x1E20_2800;
pub const FSUB_S: u32 = 0x1E20_3800;
pub const FMAX_S: u32 = 0x1E20_4800;
pub const FMIN_S: u32 = 0x1E20_5800;

// Scalar compares against zero (`fcmgt Sd, Sn, #0.0` etc.).
pub const FCMGT0_S: u32 = 0x5EA0_C800;
pub const FCMLT0_S: u32 = 0x5EA0_E800;

// `fmov Sd, #1.0`, with the destination baked in.
pub const FMOV_S4_ONE: u32 = 0x1E2E_1004;
pub const FMOV_S7_ONE: u32 = 0x1E2E_1007;

// Two-lane vector forms, one source.
pub const FNEG_2S: u32 = 0x2EA0_F800;
pub const FABS_2S: u32 = 0x0EA0_F800;
pub const FSQRT_2S: u32 = 0x2EA1_F800;
pub const REV64_2S: u32 = 0x0EA0_0800;
pub const FCMLE0_2S: u32 = 0x2EA0_D800;

// Two-lane vector forms, two sources.
pub const FADD_2S: u32 = 0x0E20_D400;
pub const FSUB_2S: u32 = 0x0EA0_D400;
pub const FMUL_2S: u32 = 0x2E20_DC00;
pub const FDIV_2S: u32 = 0x2E20_FC00;
pub const FMAX_2S: u32 = 0x0E20_F400;
pub const FMIN_2S: u32 = 0x0EA0_F400;
pub const FCMGT_2S: u32 = 0x2EA0_E400;
pub const ZIP1_2S: u32 = 0x0E80_3800;
pub const ZIP2_2S: u32 = 0x0E80_7800;

// Four-lane vector forms.
pub const FNEG_4S: u32 = 0x6EA0_F800;
pub const FABS_4S: u32 = 0x4EA0_F800;
pub const FSQRT_4S: u32 = 0x6EA1_F800;
pub const FADD_4S: u32 = 0x4E20_D400;
pub const FSUB_4S: u32 = 0x4EA0_D400;
pub const FMUL_4S: u32 = 0x6E20_DC00;
pub const FDIV_4S: u32 = 0x6E20_FC00;
pub const FMAX_4S: u32 = 0x4E20_F400;
pub const FMIN_4S: u32 = 0x4EA0_F400;

// Loads and stores of spill slots, relative to the stack pointer.
pub const LDR_S_SP: u32 = 0xBD40_03E0;
pub const STR_S_SP: u32 = 0xBD00_03E0;
pub const LDR_D_SP: u32 = 0xFD40_03E0;
pub const STR_D_SP: u32 = 0xFD00_03E0;
// `ldr Sd, [x0, #imm]`: variables beyond the three axes live behind x0.
pub const LDR_S_X0: u32 = 0xBD40_0000;

// Stack-pointer arithmetic.
pub const SUB_SP: u32 = 0xD100_03FF;
pub const ADD_SP: u32 = 0x9100_03FF;
pub const ADD_X9_SP: u32 = 0x9100_03E9;

// Prologue and epilogue words: save and restore the frame and link registers
// and the callee-saved low halves of v8-v15.
pub const STP_X29_X30: u32 = 0xA9BF_7BFD;
pub const MOV_X29_SP: u32 = 0x9100_03FD;
pub const STP_D8_D9: u32 = 0x6DBF_27E8;
pub const STP_D10_D11: u32 = 0x6DBF_2FEA;
pub const STP_D12_D13: u32 = 0x6DBF_37EC;
pub const STP_D14_D15: u32 = 0x6DBF_3FEE;
pub const LDP_D14_D15: u32 = 0x6CC1_3FEE;
pub const LDP_D12_D13: u32 = 0x6CC1_37EC;
pub const LDP_D10_D11: u32 = 0x6CC1_2FEA;
pub const LDP_D8_D9: u32 = 0x6CC1_27E8;
pub const LDP_X29_X30: u32 = 0xA8C1_7BFD;
pub const RET: u32 = 0xD65F_03C0;

// Scratch-register moves and tests used by the branchy lowerings.
pub const FMOV_X15_D4: u32 = 0x9E66_008F;
pub const FMOV_X15_D5: u32 = 0x9E66_00AF;
pub const FMOV_W15_S4: u32 = 0x1E26_008F;
pub const TST_W15_1: u32 = 0x7200_01FF;
pub const TST_X15_1: u32 = 0xF240_01FF;
pub const TST_X15_HI: u32 = 0xF260_01FF;

// Choice-byte plumbing: load the accumulator, OR in a choice, store it back
// (the tracing point flavor keeps the pointer in x1 and a simplify flag
// behind x2; the interval flavor keeps the pointer in x0).
pub const LDRB_W14_X1: u32 = 0x3940_002E;
pub const LDRB_W16_X0: u32 = 0x3940_0010;
pub const STRB_W14_X2: u32 = 0x3900_004E;
pub const STRB_W14_X1_POST: u32 = 0x3800_142E;
pub const STRB_W16_X0_POST: u32 = 0x3800_1410;
pub const ORR_W14_LEFT: u32 = 0x3200_01CE;
pub const ORR_W14_RIGHT: u32 = 0x321F_01CE;
pub const ORR_W14_BOTH: u32 = 0x3200_05CE;
pub const ORR_W16_LEFT: u32 = 0x3200_0210;
pub const ORR_W16_RIGHT: u32 = 0x321F_0210;
pub const ORR_W16_BOTH: u32 = 0x3200_0610;

// Vector scratch constants.
pub const MOVI_D4_0: u32 = 0x2F00_E404;
pub const DUP_V4_2S_S0: u32 = 0x0E04_0484;
pub const DUP_V7_4S_S0: u32 = 0x4E04_04E7;

/// Instruction with source register `rn` and destination `rd`.
pub open spec fn e2(base: u32, rn: u32, rd: u32) -> u32 {
    (base + rn * 0x20 + rd) as u32
}

/// Instruction with sources `rn`, `rm` and destination `rd`.
pub open spec fn e3(base: u32, rm: u32, rn: u32, rd: u32) -> u32 {
    (base + rm * 0x10000 + rn * 0x20 + rd) as u32
}

/// `fcmp Sn, Sm`.
pub open spec fn e_fcmp_s(rn: u32, rm: u32) -> u32 {
    (0x1E20_2000 + rm * 0x10000 + rn * 0x20) as u32
}

/// `fmov Sd, Wn`.
pub open spec fn e_fmov_ws(rd: u32, rn: u32) -> u32 {
    (0x1E27_0000 + rn * 0x20 + rd) as u32
}

/// `ldr`/`str` of a 4-byte or 8-byte value at `[sp, #off]` (or `[x0, #off]`
/// through [`LDR_S_X0`]): `base` fixes the access size, which also scales the
/// byte offset `off` into the immediate field; `rt` is the data register.
pub open spec fn e_mem_r(base: u32, scale: nat, off: nat, rt: u32) -> u32 {
    (base + (off / scale) * 0x400 + rt) as u32
}

/// `sub sp, sp, #bytes` / `add sp, sp, #bytes` / `add x9, sp, #bytes`.
pub open spec fn e_sp(base: u32, bytes: nat) -> u32 {
    (base + bytes * 0x400) as u32
}

/// `movz Wd, #imm16, lsl 16`.
pub open spec fn e_movz16(rd: u32, imm16: nat) -> u32 {
    (0x52A0_0000 + imm16 * 0x20 + rd) as u32
}

/// `movk Wd, #imm16`.
pub open spec fn e_movk(rd: u32, imm16: nat) -> u32 {
    (0x7280_0000 + imm16 * 0x20 + rd) as u32
}

/// `b.cond #off` (byte offset, forward).
pub open spec fn e_bc(cond: u32, off: nat) -> u32 {
    (0x5400_0000 + (off / 4) * 0x20 + cond) as u32
}

/// `b #off` (byte offset, forward).
pub open spec fn e_b(off: nat) -> u32 {
    (0x1400_0000 + off / 4) as u32
}

/// `ldp Dt, Dt2, [rn, #off]`.
pub open spec fn e_ldp_d(rt: u32, rt2: u32, rn: u32, off: nat) -> u32 {
    (0x6D40_0000 + (off / 8) * 0x8000 + rt2 * 0x400 + rn * 0x20 + rt) as u32
}

/// `stp Dt, Dt2, [rn, #off]`.
pub open spec fn e_stp_d(rt: u32, rt2: u32, rn: u32, off: nat) -> u32 {
    (0x6D00_0000 + (off / 8) * 0x8000 + rt2 * 0x400 + rn * 0x20 + rt) as u32
}

/// `mov Vd.s[i1], Vn.s[i2]` (insert one single-precision lane).
pub open spec fn e_ins_s(rd: u32, i1: nat, rn: u32, i2: nat) -> u32 {
    (0x6E00_0400 + (i1 * 8 + 4) * 0x10000 + i2 * 0x2000 + rn * 0x20 + rd) as u32
}

/// `mov Vd.d[i1], Vn.d[i2]` (insert one 64-bit lane).
pub open spec fn e_ins_d(rd: u32, i1: nat, rn: u32, i2: nat) -> u32 {
    (0x6E00_0400 + (i1 * 16 + 8) * 0x10000 + i2 * 0x4000 + rn * 0x20 + rd) as u32
}

/// `mov Sd, Vn.s[idx]` (scalar copy out of a lane).
pub open spec fn e_mov_s_el(rd: u32, rn: u32, idx: nat) -> u32 {
    (0x5E00_0400 + (idx * 8 + 4) * 0x10000 + rn * 0x20 + rd) as u32
}

/// `dup Vd.2s, Wn`.
pub open spec fn e_dup2s_w(rd: u32, rn: u32) -> u32 {
    (0x0E04_0C00 + rn * 0x20 + rd) as u32
}

/// `dup Vd.4s, Wn`.
pub open spec fn e_dup4s_w(rd: u32, rn: u32) -> u32 {
    (0x4E04_0C00 + rn * 0x20 + rd) as u32
}

/// `dup Vd.2d, Vn.d[0]`.
pub open spec fn e_dup2d_el0(rd: u32, rn: u32) -> u32 {
    (0x4E08_0400 + rn * 0x20 + rd) as u32
}

/// `movi Dd, #0`.
pub open spec fn e_movi_d0(rd: u32) -> u32 {
    (0x2F00_E400 + rd) as u32
}

/// `fmaxnmv Sd, Vn.4s`.
pub open spec fn e_fmaxnmv(rd: u32, rn: u32) -> u32 {
    (0x6E30_C800 + rn * 0x20 + rd) as u32
}

/// `fminnmv Sd, Vn.4s`.
pub open spec fn e_fminnmv(rd: u32, rn: u32) -> u32 {
    (0x6EB0_C800 + rn * 0x20 + rd) as u32
}

/// `mov Vd.16b, Vn.16b`.
pub open spec fn e_mov16(rd: u32, rn: u32) -> u32 {
    (0x4EA0_1C00 + rn * 0x10000 + rn * 0x20 + rd) as u32
}

/// `fmov Vd.4s, #1.0`.
pub open spec fn e_fmov1_4s(rd: u32) -> u32 {
    (0x4F03_F600 + rd) as u32
}

/// Splits an immediate bit pattern into its high and low 16-bit halves for
/// `movz`/`movk`.
pub fn split_imm(imm: u32) -> (r: (u32, u32))
    ensures
        r.0 == imm >> 16,
        r.1 == imm & 0xFFFF,
        r.0 < 0x10000,
        r.1 < 0x10000,
{
    proof {
        assert(imm >> 16 < 0x10000 && imm & 0xFFFF < 0x10000) by (bit_vector);
    }
    (imm >> 16, imm & 0xFFFF)
}

} // verus!
