//! Scalar point flavor: lowers the virtual ISA to single-precision AArch64.
//!
//! The compiled function has the C signature `fn(f32, f32, f32) -> f32`: the
//! three axes arrive in s0-s2 and the result is returned in s0.  Every
//! operator is one or two instructions; `min` and `max` use the plain scalar
//! instructions and record nothing (the choice-tracing scalar flavor is
//! [`crate::point::PointAssembler`]).

use vstd::prelude::*;
use crate::{IMM_REG, IMM_VREG, spec_reg, reg};
use crate::enc::{
    FABS_S, FADD_S, FDIV_S, FMAX_S, FMIN_S, FMOV_S, FMOV_S7_ONE, FMUL_S, FNEG_S, FSQRT_S,
    FSUB_S, LDR_S_SP, STR_S_SP, e2, e3, e_fmov_ws, e_mem_r, e_movk, e_movz16, split_imm,
};
use crate::driver::{
    AssemblerData, AssemblerT, grow_words, init_mem, init_mem_words, prologue_head,
    restore_words, slot_offset,
};
use crate::ops::AsmOp;

verus! {

/// Words loading an immediate bit pattern into the immediate register
/// through w9.
pub open spec fn float_imm_words(imm: u32) -> Seq<u32> {
    seq![
        e_movz16(9, (imm >> 16) as nat),
        e_movk(9, (imm & 0xFFFF) as nat),
        e_fmov_ws(IMM_REG as u32, 9),
    ]
}

/// Words of one two-operand arithmetic instruction (`op Sd, Sn, Sm`).
pub open spec fn float_bin_words(base: u32, out: u8, lhs: u8, rhs: u8) -> Seq<u32> {
    seq![e3(base, spec_reg(rhs), spec_reg(lhs), spec_reg(out))]
}

/// Words of one one-operand instruction (`op Sd, Sn`).
pub open spec fn float_un_words(base: u32, out: u8, lhs: u8) -> Seq<u32> {
    seq![e2(base, spec_reg(lhs), spec_reg(out))]
}

/// Words lowering one virtual instruction in the scalar point flavor, given
/// the spill-frame size `mem` at that point.
pub open spec fn float_op_words(op: AsmOp, mem: nat) -> Seq<u32> {
    match op {
        AsmOp::Load(r, m) => grow_words(mem, m, 4)
            + seq![e_mem_r(LDR_S_SP, 4, slot_offset(mem, m, 4), spec_reg(r))],
        AsmOp::Store(r, m) => grow_words(mem, m, 4)
            + seq![e_mem_r(STR_S_SP, 4, slot_offset(mem, m, 4), spec_reg(r))],
        AsmOp::Input(out, j) => seq![e2(FMOV_S, j as u32, spec_reg(out))],
        AsmOp::CopyReg(out, a) => float_un_words(FMOV_S, out, a),
        AsmOp::NegReg(out, a) => float_un_words(FNEG_S, out, a),
        AsmOp::AbsReg(out, a) => float_un_words(FABS_S, out, a),
        AsmOp::RecipReg(out, a) => seq![
            FMOV_S7_ONE,
            e3(FDIV_S, spec_reg(a), 7, spec_reg(out)),
        ],
        AsmOp::SqrtReg(out, a) => float_un_words(FSQRT_S, out, a),
        AsmOp::SquareReg(out, a) => seq![e3(FMUL_S, spec_reg(a), spec_reg(a), spec_reg(out))],
        AsmOp::AddRegReg(o, l, r) => float_bin_words(FADD_S, o, l, r),
        AsmOp::MulRegReg(o, l, r) => float_bin_words(FMUL_S, o, l, r),
        AsmOp::SubRegReg(o, l, r) => float_bin_words(FSUB_S, o, l, r),
        AsmOp::MinRegReg(o, l, r) => float_bin_words(FMIN_S, o, l, r),
        AsmOp::MaxRegReg(o, l, r) => float_bin_words(FMAX_S, o, l, r),
        AsmOp::AddRegImm(o, a, imm) => float_imm_words(imm)
            + float_bin_words(FADD_S, o, a, IMM_VREG),
        AsmOp::MulRegImm(o, a, imm) => float_imm_words(imm)
            + float_bin_words(FMUL_S, o, a, IMM_VREG),
        AsmOp::SubImmReg(o, a, imm) => float_imm_words(imm)
            + float_bin_words(FSUB_S, o, IMM_VREG, a),
        AsmOp::SubRegImm(o, a, imm) => float_imm_words(imm)
            + float_bin_words(FSUB_S, o, a, IMM_VREG),
        AsmOp::MinRegImm(o, a, imm) => float_imm_words(imm)
            + float_bin_words(FMIN_S, o, a, IMM_VREG),
        AsmOp::MaxRegImm(o, a, imm) => float_imm_words(imm)
            + float_bin_words(FMAX_S, o, a, IMM_VREG),
        AsmOp::CopyImm(o, imm) => float_imm_words(imm) + float_un_words(FMOV_S, o, IMM_VREG),
    }
}

/// Prologue of the scalar point flavor.
pub open spec fn float_prologue(slots: nat) -> Seq<u32> {
    prologue_head() + init_mem_words(slots, 4)
}

/// Epilogue of the scalar point flavor: move the result to s0, unwind,
/// restore, return.
pub open spec fn float_epilogue(out: u8, mem: nat) -> Seq<u32> {
    seq![e2(FMOV_S, spec_reg(out), 0)] + restore_words(mem)
}

/// Assembler for the scalar point flavor.
pub struct FloatAssembler(pub AssemblerData);

impl AssemblerT for FloatAssembler {
    open spec fn words(&self) -> Seq<u32> {
        self.0.code@
    }

    open spec fn mem(&self) -> nat {
        self.0.mem_offset as nat
    }

    open spec fn inv(&self) -> bool {
        self.0.wf()
    }

    open spec fn elem_size() -> nat {
        4
    }

    open spec fn prologue(slots: nat) -> Seq<u32> {
        float_prologue(slots)
    }

    open spec fn op_words(op: AsmOp, mem: nat) -> Seq<u32> {
        float_op_words(op, mem)
    }

    open spec fn imm_words(imm: u32) -> Seq<u32> {
        float_imm_words(imm)
    }

    open spec fn epilogue(out: u8, mem: nat) -> Seq<u32> {
        float_epilogue(out, mem)
    }

    proof fn lemma_imm_ops(out: u8, a: u8, imm: u32, mem: nat) {
    }

    fn init(slot_count: usize) -> (s: Self) {
        let mut d = AssemblerData::new();
        d.push_prologue();
        d.prep_slots(slot_count, 4);
        let s = FloatAssembler(d);
        proof {
            assert(s.words() =~= float_prologue(slot_count as nat));
        }
        s
    }

    fn build_load(&mut self, dst_reg: u8, src_mem: u32) {
        let sp_offset = self.0.check_stack(src_mem, 4);
        let rt = reg(dst_reg);
        self.0.push(LDR_S_SP + (sp_offset / 4) * 0x400 + rt);
        proof {
            assert(self.words() =~= old(self).words()
                + Self::op_words(AsmOp::Load(dst_reg, src_mem), old(self).mem()));
        }
    }

    fn build_store(&mut self, dst_mem: u32, src_reg: u8) {
        let sp_offset = self.0.check_stack(dst_mem, 4);
        let rt = reg(src_reg);
        self.0.push(STR_S_SP + (sp_offset / 4) * 0x400 + rt);
        proof {
            assert(self.words() =~= old(self).words()
                + Self::op_words(AsmOp::Store(src_reg, dst_mem), old(self).mem()));
        }
    }

    fn build_input(&mut self, out_reg: u8, src_arg: u8) {
        let rd = reg(out_reg);
        self.0.push(FMOV_S + (src_arg as u32) * 0x20 + rd);
        proof {
            assert(self.words() =~= old(self).words()
                + Self::op_words(AsmOp::Input(out_reg, src_arg), old(self).mem()));
        }
    }

    fn build_copy(&mut self, out_reg: u8, lhs_reg: u8) {
        let rd = reg(out_reg);
        let rn = reg(lhs_reg);
        self.0.push(FMOV_S + rn * 0x20 + rd);
        proof {
            assert(self.words() =~= old(self).words()
                + Self::op_words(AsmOp::CopyReg(out_reg, lhs_reg), old(self).mem()));
        }
    }

    fn build_neg(&mut self, out_reg: u8, lhs_reg: u8) {
        let rd = reg(out_reg);
        let rn = reg(lhs_reg);
        self.0.push(FNEG_S + rn * 0x20 + rd);
        proof {
            assert(self.words() =~= old(self).words()
                + Self::op_words(AsmOp::NegReg(out_reg, lhs_reg), old(self).mem()));
        }
    }

    fn build_abs(&mut self, out_reg: u8, lhs_reg: u8) {
        let rd = reg(out_reg);
        let rn = reg(lhs_reg);
        self.0.push(FABS_S + rn * 0x20 + rd);
        proof {
            assert(self.words() =~= old(self).words()
                + Self::op_words(AsmOp::AbsReg(out_reg, lhs_reg), old(self).mem()));
        }
    }

    fn build_recip(&mut self, out_reg: u8, lhs_reg: u8) {
        let rd = reg(out_reg);
        let rn = reg(lhs_reg);
        self.0.push(FMOV_S7_ONE);
        self.0.push(FDIV_S + rn * 0x10000 + 7 * 0x20 + rd);
        proof {
            assert(self.words() =~= old(self).words()
                + Self::op_words(AsmOp::RecipReg(out_reg, lhs_reg), old(self).mem()));
        }
    }

    fn build_sqrt(&mut self, out_reg: u8, lhs_reg: u8) {
        let rd = reg(out_reg);
        let rn = reg(lhs_reg);
        self.0.push(FSQRT_S + rn * 0x20 + rd);
        proof {
            assert(self.words() =~= old(self).words()
                + Self::op_words(AsmOp::SqrtReg(out_reg, lhs_reg), old(self).mem()));
        }
    }

    fn build_square(&mut self, out_reg: u8, lhs_reg: u8) {
        let rd = reg(out_reg);
        let rn = reg(lhs_reg);
        self.0.push(FMUL_S + rn * 0x10000 + rn * 0x20 + rd);
        proof {
            assert(self.words() =~= old(self).words()
                + Self::op_words(AsmOp::SquareReg(out_reg, lhs_reg), old(self).mem()));
        }
    }

    fn build_add(&mut self, out_reg: u8, lhs_reg: u8, rhs_reg: u8) {
        let rd = reg(out_reg);
        let rn = reg(lhs_reg);
        let rm = reg(rhs_reg);
        self.0.push(FADD_S + rm * 0x10000 + rn * 0x20 + rd);
        proof {
            assert(self.words() =~= old(self).words()
                + Self::op_words(AsmOp::AddRegReg(out_reg, lhs_reg, rhs_reg), old(self).mem()));
        }
    }

    fn build_sub(&mut self, out_reg: u8, lhs_reg: u8, rhs_reg: u8) {
        let rd = reg(out_reg);
        let rn = reg(lhs_reg);
        let rm = reg(rhs_reg);
        self.0.push(FSUB_S + rm * 0x10000 + rn * 0x20 + rd);
        proof {
            assert(self.words() =~= old(self).words()
                + Self::op_words(AsmOp::SubRegReg(out_reg, lhs_reg, rhs_reg), old(self).mem()));
        }
    }

    fn build_mul(&mut self, out_reg: u8, lhs_reg: u8, rhs_reg: u8) {
        let rd = reg(out_reg);
        let rn = reg(lhs_reg);
        let rm = reg(rhs_reg);
        self.0.push(FMUL_S + rm * 0x10000 + rn * 0x20 + rd);
        proof {
            assert(self.words() =~= old(self).words()
                + Self::op_words(AsmOp::MulRegReg(out_reg, lhs_reg, rhs_reg), old(self).mem()));
        }
    }

    fn build_max(&mut self, out_reg: u8, lhs_reg: u8, rhs_reg: u8) {
        let rd = reg(out_reg);
        let rn = reg(lhs_reg);
        let rm = reg(rhs_reg);
        self.0.push(FMAX_S + rm * 0x10000 + rn * 0x20 + rd);
        proof {
            assert(self.words() =~= old(self).words()
                + Self::op_words(AsmOp::MaxRegReg(out_reg, lhs_reg, rhs_reg), old(self).mem()));
        }
    }

    fn build_min(&mut self, out_reg: u8, lhs_reg: u8, rhs_reg: u8) {
        let rd = reg(out_reg);
        let rn = reg(lhs_reg);
        let rm = reg(rhs_reg);
        self.0.push(FMIN_S + rm * 0x10000 + rn * 0x20 + rd);
        proof {
            assert(self.words() =~= old(self).words()
                + Self::op_words(AsmOp::MinRegReg(out_reg, lhs_reg, rhs_reg), old(self).mem()));
        }
    }

    fn load_imm(&mut self, imm: u32) -> (r: u8) {
        let (hi, lo) = split_imm(imm);
        self.0.push(0x52A0_0000 + hi * 0x20 + 9);
        self.0.push(0x7280_0000 + lo * 0x20 + 9);
        self.0.push(0x1E27_0000 + 9 * 0x20 + IMM_REG as u32);
        proof {
            assert(self.words() =~= old(self).words() + Self::imm_words(imm));
        }
        IMM_REG.wrapping_sub(crate::OFFSET)
    }

    fn finalize(self, out_reg: u8) -> (code: Vec<u32>) {
        let ghost w0 = self.words();
        let ghost m0 = self.mem();
        let mut s = self;
        let rn = reg(out_reg);
        s.0.push(FMOV_S + rn * 0x20 + 0);
        s.0.push_restore();
        proof {
            assert(s.0.code@ =~= w0 + float_epilogue(out_reg, m0));
        }
        s.0.code
    }
}

} // verus!
