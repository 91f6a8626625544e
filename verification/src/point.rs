//! Tracing point flavor: scalar lowering with choice emission.
//!
//! Like the plain scalar flavor, but `min` and `max` branch on an ordered
//! compare and record which side was live: x1 holds the choice pointer
//! (advanced by one per node) and a non-zero byte is written through x2
//! whenever one side was eliminated, flagging the tape as simplifiable.  On
//! the "equal or NaN" path the native `fmin`/`fmax` collapses NaNs toward
//! the defined side, and the choice byte records `Both`.
//!
//! This flavor also reads variables beyond the three axes from a pointer
//! argument in x0 (see [`PointAssembler::build_var`]).

use vstd::prelude::*;
use crate::{IMM_REG, IMM_VREG, REGISTER_LIMIT, spec_reg, reg, valid_vreg};
use crate::enc::{
    COND_GT, COND_MI, FDIV_S, FMAX_S, FMIN_S, FMOV_S, LDRB_W14_X1, LDR_S_X0, ORR_W14_BOTH,
    ORR_W14_LEFT, ORR_W14_RIGHT, STRB_W14_X1_POST, STRB_W14_X2, e2, e3, e_b, e_bc, e_fcmp_s,
    e_mem_r, split_imm,
};
use crate::driver::{AssemblerData, AssemblerT, init_mem_words, prologue_head};
use crate::float::{float_epilogue, float_imm_words, float_op_words};
use crate::ops::AsmOp;

verus! {

/// `max` with tracing: ordered compare, then one of three paths.  A strict
/// winner is copied to the output, its choice is OR-ed in, and the simplify
/// flag is set; otherwise the native `fmax` runs and `Both` is recorded.
pub open spec fn point_max_words(out: u8, lhs: u8, rhs: u8) -> Seq<u32> {
    seq![
        LDRB_W14_X1,
        e_fcmp_s(spec_reg(lhs), spec_reg(rhs)),
        e_bc(COND_MI, 20),
        e_bc(COND_GT, 32),
        e3(FMAX_S, spec_reg(rhs), spec_reg(lhs), spec_reg(out)),
        ORR_W14_BOTH,
        e_b(32),
        e2(FMOV_S, spec_reg(rhs), spec_reg(out)),
        ORR_W14_RIGHT,
        STRB_W14_X2,
        e_b(16),
        e2(FMOV_S, spec_reg(lhs), spec_reg(out)),
        ORR_W14_LEFT,
        STRB_W14_X2,
        STRB_W14_X1_POST,
    ]
}

/// `min` with tracing; the mirror image of [`point_max_words`].
pub open spec fn point_min_words(out: u8, lhs: u8, rhs: u8) -> Seq<u32> {
    seq![
        LDRB_W14_X1,
        e_fcmp_s(spec_reg(lhs), spec_reg(rhs)),
        e_bc(COND_MI, 20),
        e_bc(COND_GT, 32),
        e3(FMIN_S, spec_reg(rhs), spec_reg(lhs), spec_reg(out)),
        ORR_W14_BOTH,
        e_b(32),
        e2(FMOV_S, spec_reg(lhs), spec_reg(out)),
        ORR_W14_LEFT,
        STRB_W14_X2,
        e_b(16),
        e2(FMOV_S, spec_reg(rhs), spec_reg(out)),
        ORR_W14_RIGHT,
        STRB_W14_X2,
        STRB_W14_X1_POST,
    ]
}

/// Words reading variable `src_arg` from the pointer argument in x0.
pub open spec fn point_var_words(out: u8, src_arg: u32) -> Seq<u32> {
    seq![e_mem_r(LDR_S_X0, 4, (src_arg * 4) as nat, spec_reg(out))]
}

/// Words lowering one virtual instruction in the tracing point flavor: the
/// `min`/`max` nodes trace their choices, everything else lowers exactly as
/// in the plain scalar flavor.
pub open spec fn point_op_words(op: AsmOp, mem: nat) -> Seq<u32> {
    match op {
        AsmOp::MinRegReg(o, l, r) => point_min_words(o, l, r),
        AsmOp::MaxRegReg(o, l, r) => point_max_words(o, l, r),
        AsmOp::MinRegImm(o, a, imm) => float_imm_words(imm) + point_min_words(o, a, IMM_VREG),
        AsmOp::MaxRegImm(o, a, imm) => float_imm_words(imm) + point_max_words(o, a, IMM_VREG),
        _ => float_op_words(op, mem),
    }
}

/// Prologue of the tracing point flavor.
pub open spec fn point_prologue(slots: nat) -> Seq<u32> {
    prologue_head() + init_mem_words(slots, 4)
}

/// Assembler for the tracing point flavor.
pub struct PointAssembler(pub AssemblerData);

impl PointAssembler {
    /// Reads variable `src_arg` (an index into the caller's variable array,
    /// whose base pointer is in x0) into `out_reg`.
    pub fn build_var(&mut self, out_reg: u8, src_arg: u32)
        requires
            old(self).0.wf(),
            out_reg < REGISTER_LIMIT,
            src_arg * 4 < 16384,
        ensures
            final(self).0.wf(),
            final(self).0.code@ == old(self).0.code@ + point_var_words(out_reg, src_arg),
            final(self).0.mem_offset == old(self).0.mem_offset,
    {
        let rt = reg(out_reg);
        self.0.push(LDR_S_X0 + src_arg * 0x400 + rt);
        proof {
            assert(self.0.code@ =~= old(self).0.code@ + point_var_words(out_reg, src_arg));
        }
    }

    /// Quotient of two registers.  The virtual ISA carries no division
    /// opcode, so the driver never requests this; it is part of the flavor's
    /// builder surface all the same.
    pub fn build_div(&mut self, out_reg: u8, lhs_reg: u8, rhs_reg: u8)
        requires
            old(self).0.wf(),
            out_reg < REGISTER_LIMIT,
            valid_vreg(lhs_reg),
            valid_vreg(rhs_reg),
        ensures
            final(self).0.wf(),
            final(self).0.code@ == old(self).0.code@
                + seq![e3(FDIV_S, spec_reg(rhs_reg), spec_reg(lhs_reg), spec_reg(out_reg))],
            final(self).0.mem_offset == old(self).0.mem_offset,
    {
        let rd = reg(out_reg);
        let rn = reg(lhs_reg);
        let rm = reg(rhs_reg);
        self.0.push(FDIV_S + rm * 0x10000 + rn * 0x20 + rd);
        proof {
            assert(self.0.code@ =~= old(self).0.code@
                + seq![e3(FDIV_S, spec_reg(rhs_reg), spec_reg(lhs_reg), spec_reg(out_reg))]);
        }
    }
}

impl AssemblerT for PointAssembler {
    open spec fn words(&self) -> Seq<u32> {
        self.0.code@
    }

    open spec fn mem(&self) -> nat {
        self.0.mem_offset as nat
    }

    open spec fn inv(&self) -> bool {
        self.0.wf()
    }

    open spec fn elem_size() -> nat {
        4
    }

    open spec fn prologue(slots: nat) -> Seq<u32> {
        point_prologue(slots)
    }

    open spec fn op_words(op: AsmOp, mem: nat) -> Seq<u32> {
        point_op_words(op, mem)
    }

    open spec fn imm_words(imm: u32) -> Seq<u32> {
        float_imm_words(imm)
    }

    open spec fn epilogue(out: u8, mem: nat) -> Seq<u32> {
        float_epilogue(out, mem)
    }

    proof fn lemma_imm_ops(out: u8, a: u8, imm: u32, mem: nat) {
    }

    fn init(slot_count: usize) -> (s: Self) {
        let mut d = AssemblerData::new();
        d.push_prologue();
        d.prep_slots(slot_count, 4);
        let s = PointAssembler(d);
        proof {
            assert(s.words() =~= point_prologue(slot_count as nat));
        }
        s
    }

    fn build_load(&mut self, dst_reg: u8, src_mem: u32) {
        let sp_offset = self.0.check_stack(src_mem, 4);
        let rt = reg(dst_reg);
        self.0.push(crate::enc::LDR_S_SP + (sp_offset / 4) * 0x400 + rt);
        proof {
            assert(self.words() =~= old(self).words()
                + Self::op_words(AsmOp::Load(dst_reg, src_mem), old(self).mem()));
        }
    }

    fn build_store(&mut self, dst_mem: u32, src_reg: u8) {
        let sp_offset = self.0.check_stack(dst_mem, 4);
        let rt = reg(src_reg);
        self.0.push(crate::enc::STR_S_SP + (sp_offset / 4) * 0x400 + rt);
        proof {
            assert(self.words() =~= old(self).words()
                + Self::op_words(AsmOp::Store(src_reg, dst_mem), old(self).mem()));
        }
    }

    fn build_input(&mut self, out_reg: u8, src_arg: u8) {
        let rd = reg(out_reg);
        self.0.push(FMOV_S + (src_arg as u32) * 0x20 + rd);
        proof {
            assert(self.words() =~= old(self).words()
                + Self::op_words(AsmOp::Input(out_reg, src_arg), old(self).mem()));
        }
    }

    fn build_copy(&mut self, out_reg: u8, lhs_reg: u8) {
        let rd = reg(out_reg);
        let rn = reg(lhs_reg);
        self.0.push(FMOV_S + rn * 0x20 + rd);
        proof {
            assert(self.words() =~= old(self).words()
                + Self::op_words(AsmOp::CopyReg(out_reg, lhs_reg), old(self).mem()));
        }
    }

    fn build_neg(&mut self, out_reg: u8, lhs_reg: u8) {
        let rd = reg(out_reg);
        let rn = reg(lhs_reg);
        self.0.push(crate::enc::FNEG_S + rn * 0x20 + rd);
        proof {
            assert(self.words() =~= old(self).words()
                + Self::op_words(AsmOp::NegReg(out_reg, lhs_reg), old(self).mem()));
        }
    }

    fn build_abs(&mut self, out_reg: u8, lhs_reg: u8) {
        let rd = reg(out_reg);
        let rn = reg(lhs_reg);
        self.0.push(crate::enc::FABS_S + rn * 0x20 + rd);
        proof {
            assert(self.words() =~= old(self).words()
                + Self::op_words(AsmOp::AbsReg(out_reg, lhs_reg), old(self).mem()));
        }
    }

    fn build_recip(&mut self, out_reg: u8, lhs_reg: u8) {
        let rd = reg(out_reg);
        let rn = reg(lhs_reg);
        self.0.push(crate::enc::FMOV_S7_ONE);
        self.0.push(FDIV_S + rn * 0x10000 + 7 * 0x20 + rd);
        proof {
            assert(self.words() =~= old(self).words()
                + Self::op_words(AsmOp::RecipReg(out_reg, lhs_reg), old(self).mem()));
        }
    }

    fn build_sqrt(&mut self, out_reg: u8, lhs_reg: u8) {
        let rd = reg(out_reg);
        let rn = reg(lhs_reg);
        self.0.push(crate::enc::FSQRT_S + rn * 0x20 + rd);
        proof {
            assert(self.words() =~= old(self).words()
                + Self::op_words(AsmOp::SqrtReg(out_reg, lhs_reg), old(self).mem()));
        }
    }

    fn build_square(&mut self, out_reg: u8, lhs_reg: u8) {
        let rd = reg(out_reg);
        let rn = reg(lhs_reg);
        self.0.push(crate::enc::FMUL_S + rn * 0x10000 + rn * 0x20 + rd);
        proof {
            assert(self.words() =~= old(self).words()
                + Self::op_words(AsmOp::SquareReg(out_reg, lhs_reg), old(self).mem()));
        }
    }

    fn build_add(&mut self, out_reg: u8, lhs_reg: u8, rhs_reg: u8) {
        let rd = reg(out_reg);
        let rn = reg(lhs_reg);
        let rm = reg(rhs_reg);
        self.0.push(crate::enc::FADD_S + rm * 0x10000 + rn * 0x20 + rd);
        proof {
            assert(self.words() =~= old(self).words()
                + Self::op_words(AsmOp::AddRegReg(out_reg, lhs_reg, rhs_reg), old(self).mem()));
        }
    }

    fn build_sub(&mut self, out_reg: u8, lhs_reg: u8, rhs_reg: u8) {
        let rd = reg(out_reg);
        let rn = reg(lhs_reg);
        let rm = reg(rhs_reg);
        self.0.push(crate::enc::FSUB_S + rm * 0x10000 + rn * 0x20 + rd);
        proof {
            assert(self.words() =~= old(self).words()
                + Self::op_words(AsmOp::SubRegReg(out_reg, lhs_reg, rhs_reg), old(self).mem()));
        }
    }

    fn build_mul(&mut self, out_reg: u8, lhs_reg: u8, rhs_reg: u8) {
        let rd = reg(out_reg);
        let rn = reg(lhs_reg);
        let rm = reg(rhs_reg);
        self.0.push(crate::enc::FMUL_S + rm * 0x10000 + rn * 0x20 + rd);
        proof {
            assert(self.words() =~= old(self).words()
                + Self::op_words(AsmOp::MulRegReg(out_reg, lhs_reg, rhs_reg), old(self).mem()));
        }
    }

    #[verifier::rlimit(50)]
    fn build_max(&mut self, out_reg: u8, lhs_reg: u8, rhs_reg: u8) {
        let rd = reg(out_reg);
        let rn = reg(lhs_reg);
        let rm = reg(rhs_reg);
        self.0.push(LDRB_W14_X1);
        self.0.push(0x1E20_2000 + rm * 0x10000 + rn * 0x20);
        self.0.push(0x5400_0000 + (20 / 4) * 0x20 + COND_MI);
        self.0.push(0x5400_0000 + (32 / 4) * 0x20 + COND_GT);
        self.0.push(FMAX_S + rm * 0x10000 + rn * 0x20 + rd);
        self.0.push(ORR_W14_BOTH);
        self.0.push(0x1400_0000 + 32 / 4);
        self.0.push(FMOV_S + rm * 0x20 + rd);
        self.0.push(ORR_W14_RIGHT);
        self.0.push(STRB_W14_X2);
        self.0.push(0x1400_0000 + 16 / 4);
        self.0.push(FMOV_S + rn * 0x20 + rd);
        self.0.push(ORR_W14_LEFT);
        self.0.push(STRB_W14_X2);
        self.0.push(STRB_W14_X1_POST);
        proof {
            assert(self.words() =~= old(self).words()
                + Self::op_words(AsmOp::MaxRegReg(out_reg, lhs_reg, rhs_reg), old(self).mem()));
        }
    }

    #[verifier::rlimit(50)]
    fn build_min(&mut self, out_reg: u8, lhs_reg: u8, rhs_reg: u8) {
        let rd = reg(out_reg);
        let rn = reg(lhs_reg);
        let rm = reg(rhs_reg);
        self.0.push(LDRB_W14_X1);
        self.0.push(0x1E20_2000 + rm * 0x10000 + rn * 0x20);
        self.0.push(0x5400_0000 + (20 / 4) * 0x20 + COND_MI);
        self.0.push(0x5400_0000 + (32 / 4) * 0x20 + COND_GT);
        self.0.push(FMIN_S + rm * 0x10000 + rn * 0x20 + rd);
        self.0.push(ORR_W14_BOTH);
        self.0.push(0x1400_0000 + 32 / 4);
        self.0.push(FMOV_S + rn * 0x20 + rd);
        self.0.push(ORR_W14_LEFT);
        self.0.push(STRB_W14_X2);
        self.0.push(0x1400_0000 + 16 / 4);
        self.0.push(FMOV_S + rm * 0x20 + rd);
        self.0.push(ORR_W14_RIGHT);
        self.0.push(STRB_W14_X2);
        self.0.push(STRB_W14_X1_POST);
        proof {
            assert(self.words() =~= old(self).words()
                + Self::op_words(AsmOp::MinRegReg(out_reg, lhs_reg, rhs_reg), old(self).mem()));
        }
    }

    fn load_imm(&mut self, imm: u32) -> (r: u8) {
        let (hi, lo) = split_imm(imm);
        self.0.push(0x52A0_0000 + hi * 0x20 + 9);
        self.0.push(0x7280_0000 + lo * 0x20 + 9);
        self.0.push(0x1E27_0000 + 9 * 0x20 + IMM_REG as u32);
        proof {
            assert(self.words() =~= old(self).words() + Self::imm_words(imm));
        }
        IMM_REG.wrapping_sub(crate::OFFSET)
    }

    fn finalize(self, out_reg: u8) -> (code: Vec<u32>) {
        let ghost w0 = self.words();
        let ghost m0 = self.mem();
        let mut s = self;
        let rn = reg(out_reg);
        s.0.push(FMOV_S + rn * 0x20 + 0);
        s.0.push_restore();
        proof {
            assert(s.0.code@ =~= w0 + float_epilogue(out_reg, m0));
        }
        s.0.code
    }
}

} // verus!
