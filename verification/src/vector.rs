//! Vector flavor: lowers the virtual ISA to 4-lane SIMD AArch64.
//!
//! The compiled function has the C signature
//! `fn(*const f32, *const f32, *const f32, *mut f32)`: each input pointer
//! addresses four consecutive lanes and the four results are written through
//! the fourth pointer.  The prologue pre-fills every tape register with
//! `1.0` across all four lanes so that dead spill reads do not propagate
//! NaNs.  All arithmetic is the plain 4-lane form of the float instructions;
//! no lowering branches.  Spill transfers move 128 bits as a pair of 64-bit
//! halves, through an address materialized in x9 when the offset exceeds the
//! reach of the pair instruction's immediate.

use vstd::prelude::*;
use crate::{IMM_REG, IMM_VREG, spec_reg, reg};
use crate::enc::{
    ADD_X9_SP, DUP_V7_4S_S0, FABS_4S, FADD_4S, FDIV_4S, FMAX_4S, FMIN_4S, FMOV_S7_ONE, FMUL_4S,
    FNEG_4S, FSQRT_4S, FSUB_4S, e3, e2, e_b, e_dup4s_w, e_fmov1_4s, e_ins_d, e_ldp_d, e_mov16,
    e_movk, e_movz16, e_sp, e_stp_d, split_imm,
};
use crate::driver::{
    AssemblerData, AssemblerT, grow_words, init_mem_words, prologue_head, restore_words,
    slot_offset,
};
use crate::ops::AsmOp;

verus! {

/// Words loading an immediate bit pattern into all four lanes of the
/// immediate register through w9.
pub open spec fn vec_imm_words(imm: u32) -> Seq<u32> {
    seq![
        e_movz16(9, (imm >> 16) as nat),
        e_movk(9, (imm & 0xFFFF) as nat),
        e_dup4s_w(IMM_REG as u32, 9),
    ]
}

/// Words reading spill slot `off` (a resolved stack offset) into a register:
/// two 64-bit loads and a lane merge, through x9 when out of reach.
pub open spec fn vec_load_words(rd: u32, off: nat) -> Seq<u32> {
    if off >= 512 {
        seq![
            e_sp(ADD_X9_SP, off),
            e_ldp_d(rd, 4, 9, 0),
            e_ins_d(rd, 1, 4, 0),
        ]
    } else {
        seq![
            e_ldp_d(rd, 4, 31, off),
            e_ins_d(rd, 1, 4, 0),
        ]
    }
}

/// Words writing a register to spill slot `off`: the upper half moves to d4,
/// then both halves store as a pair.
pub open spec fn vec_store_words(rt: u32, off: nat) -> Seq<u32> {
    if off >= 512 {
        seq![
            e_sp(ADD_X9_SP, off),
            e_ins_d(4, 0, rt, 1),
            e_stp_d(rt, 4, 9, 0),
        ]
    } else {
        seq![
            e_ins_d(4, 0, rt, 1),
            e_stp_d(rt, 4, 31, off),
        ]
    }
}

/// Words lowering one virtual instruction in the vector flavor, given the
/// spill-frame size `mem` at that point.
pub open spec fn vec_op_words(op: AsmOp, mem: nat) -> Seq<u32> {
    match op {
        AsmOp::Load(r, m) => grow_words(mem, m, 16)
            + vec_load_words(spec_reg(r), slot_offset(mem, m, 16)),
        AsmOp::Store(r, m) => grow_words(mem, m, 16)
            + vec_store_words(spec_reg(r), slot_offset(mem, m, 16)),
        AsmOp::Input(out, j) => seq![e_mov16(spec_reg(out), j as u32)],
        AsmOp::CopyReg(out, a) => seq![e_mov16(spec_reg(out), spec_reg(a))],
        AsmOp::NegReg(out, a) => seq![e2(FNEG_4S, spec_reg(a), spec_reg(out))],
        AsmOp::AbsReg(out, a) => seq![e2(FABS_4S, spec_reg(a), spec_reg(out))],
        AsmOp::RecipReg(out, a) => seq![
            FMOV_S7_ONE,
            DUP_V7_4S_S0,
            e3(FDIV_4S, spec_reg(a), 7, spec_reg(out)),
        ],
        AsmOp::SqrtReg(out, a) => seq![e2(FSQRT_4S, spec_reg(a), spec_reg(out))],
        AsmOp::SquareReg(out, a) => seq![e3(FMUL_4S, spec_reg(a), spec_reg(a), spec_reg(out))],
        AsmOp::AddRegReg(o, l, r) => seq![e3(FADD_4S, spec_reg(r), spec_reg(l), spec_reg(o))],
        AsmOp::MulRegReg(o, l, r) => seq![e3(FMUL_4S, spec_reg(r), spec_reg(l), spec_reg(o))],
        AsmOp::SubRegReg(o, l, r) => seq![e3(FSUB_4S, spec_reg(r), spec_reg(l), spec_reg(o))],
        AsmOp::MinRegReg(o, l, r) => seq![e3(FMIN_4S, spec_reg(r), spec_reg(l), spec_reg(o))],
        AsmOp::MaxRegReg(o, l, r) => seq![e3(FMAX_4S, spec_reg(r), spec_reg(l), spec_reg(o))],
        AsmOp::AddRegImm(o, a, imm) => vec_imm_words(imm)
            + seq![e3(FADD_4S, spec_reg(IMM_VREG), spec_reg(a), spec_reg(o))],
        AsmOp::MulRegImm(o, a, imm) => vec_imm_words(imm)
            + seq![e3(FMUL_4S, spec_reg(IMM_VREG), spec_reg(a), spec_reg(o))],
        AsmOp::SubImmReg(o, a, imm) => vec_imm_words(imm)
            + seq![e3(FSUB_4S, spec_reg(a), spec_reg(IMM_VREG), spec_reg(o))],
        AsmOp::SubRegImm(o, a, imm) => vec_imm_words(imm)
            + seq![e3(FSUB_4S, spec_reg(IMM_VREG), spec_reg(a), spec_reg(o))],
        AsmOp::MinRegImm(o, a, imm) => vec_imm_words(imm)
            + seq![e3(FMIN_4S, spec_reg(IMM_VREG), spec_reg(a), spec_reg(o))],
        AsmOp::MaxRegImm(o, a, imm) => vec_imm_words(imm)
            + seq![e3(FMAX_4S, spec_reg(IMM_VREG), spec_reg(a), spec_reg(o))],
        AsmOp::CopyImm(o, imm) => vec_imm_words(imm)
            + seq![e_mov16(spec_reg(o), spec_reg(IMM_VREG))],
    }
}

/// Prologue of the vector flavor: after the common head, load the four lanes
/// of x, y and z into v0-v2 and fill every tape register with 1.0.
pub open spec fn vec_prologue(slots: nat) -> Seq<u32> {
    prologue_head() + seq![
        e_ldp_d(0, 1, 0, 0),
        e_ins_d(0, 1, 1, 0),
        e_ldp_d(1, 2, 1, 0),
        e_ins_d(1, 1, 2, 0),
        e_ldp_d(2, 3, 2, 0),
        e_ins_d(2, 1, 3, 0),
        e_fmov1_4s(8),
        e_fmov1_4s(9),
        e_fmov1_4s(10),
        e_fmov1_4s(11),
        e_fmov1_4s(12),
        e_fmov1_4s(13),
        e_fmov1_4s(14),
        e_fmov1_4s(15),
        e_fmov1_4s(16),
        e_fmov1_4s(17),
        e_fmov1_4s(18),
        e_fmov1_4s(19),
        e_fmov1_4s(20),
        e_fmov1_4s(21),
        e_fmov1_4s(22),
        e_fmov1_4s(23),
        e_fmov1_4s(24),
        e_fmov1_4s(25),
        e_fmov1_4s(26),
        e_fmov1_4s(27),
        e_fmov1_4s(28),
        e_fmov1_4s(29),
        e_fmov1_4s(30),
        e_fmov1_4s(31),
    ] + init_mem_words(slots, 16)
}

/// Epilogue of the vector flavor: write the four result lanes through the
/// pointer in x3, unwind, restore, return.
pub open spec fn vec_epilogue(out: u8, mem: nat) -> Seq<u32> {
    seq![
        e_ins_d(0, 0, spec_reg(out), 1),
        e_stp_d(spec_reg(out), 0, 3, 0),
    ] + restore_words(mem)
}

/// Assembler for the vector flavor.
pub struct VecAssembler(pub AssemblerData);

impl AssemblerT for VecAssembler {
    open spec fn words(&self) -> Seq<u32> {
        self.0.code@
    }

    open spec fn mem(&self) -> nat {
        self.0.mem_offset as nat
    }

    open spec fn inv(&self) -> bool {
        self.0.wf()
    }

    open spec fn elem_size() -> nat {
        16
    }

    open spec fn prologue(slots: nat) -> Seq<u32> {
        vec_prologue(slots)
    }

    open spec fn op_words(op: AsmOp, mem: nat) -> Seq<u32> {
        vec_op_words(op, mem)
    }

    open spec fn imm_words(imm: u32) -> Seq<u32> {
        vec_imm_words(imm)
    }

    open spec fn epilogue(out: u8, mem: nat) -> Seq<u32> {
        vec_epilogue(out, mem)
    }

    proof fn lemma_imm_ops(out: u8, a: u8, imm: u32, mem: nat) {
    }

    #[verifier::rlimit(50)]
    fn init(slot_count: usize) -> (s: Self) {
        let mut d = AssemblerData::new();
        d.push_prologue();
        d.push(0x6D40_0000 + 1 * 0x400 + 0 * 0x20 + 0);
        d.push(0x6E00_0400 + (1 * 16 + 8) * 0x10000 + 0 * 0x4000 + 1 * 0x20 + 0);
        d.push(0x6D40_0000 + 2 * 0x400 + 1 * 0x20 + 1);
        d.push(0x6E00_0400 + (1 * 16 + 8) * 0x10000 + 0 * 0x4000 + 2 * 0x20 + 1);
        d.push(0x6D40_0000 + 3 * 0x400 + 2 * 0x20 + 2);
        d.push(0x6E00_0400 + (1 * 16 + 8) * 0x10000 + 0 * 0x4000 + 3 * 0x20 + 2);
        let mut r: u32 = 8;
        while r < 32
            invariant
                8 <= r <= 32,
                d.mem_offset == 0,
                d.wf(),
                d.code@ == prologue_head() + seq![
                    e_ldp_d(0, 1, 0, 0),
                    e_ins_d(0, 1, 1, 0),
                    e_ldp_d(1, 2, 1, 0),
                    e_ins_d(1, 1, 2, 0),
                    e_ldp_d(2, 3, 2, 0),
                    e_ins_d(2, 1, 3, 0),
                ] + Seq::new((r - 8) as nat, |k: int| e_fmov1_4s((8 + k) as u32)),
            decreases 32 - r,
        {
            d.push(0x4F03_F600 + r);
            proof {
                assert(Seq::new((r + 1 - 8) as nat, |k: int| e_fmov1_4s((8 + k) as u32))
                    =~= Seq::new((r - 8) as nat, |k: int| e_fmov1_4s((8 + k) as u32))
                        .push(e_fmov1_4s(r)));
            }
            r = r + 1;
        }
        d.prep_slots(slot_count, 16);
        let s = VecAssembler(d);
        proof {
            assert(Seq::new(24, |k: int| e_fmov1_4s((8 + k) as u32)) =~= seq![
                e_fmov1_4s(8), e_fmov1_4s(9), e_fmov1_4s(10), e_fmov1_4s(11),
                e_fmov1_4s(12), e_fmov1_4s(13), e_fmov1_4s(14), e_fmov1_4s(15),
                e_fmov1_4s(16), e_fmov1_4s(17), e_fmov1_4s(18), e_fmov1_4s(19),
                e_fmov1_4s(20), e_fmov1_4s(21), e_fmov1_4s(22), e_fmov1_4s(23),
                e_fmov1_4s(24), e_fmov1_4s(25), e_fmov1_4s(26), e_fmov1_4s(27),
                e_fmov1_4s(28), e_fmov1_4s(29), e_fmov1_4s(30), e_fmov1_4s(31),
            ]);
            assert(s.words() =~= vec_prologue(slot_count as nat));
        }
        s
    }

    #[verifier::rlimit(50)]
    fn build_load(&mut self, dst_reg: u8, src_mem: u32) {
        let sp_offset = self.0.check_stack(src_mem, 16);
        let rt = reg(dst_reg);
        if sp_offset >= 512 {
            self.0.push(ADD_X9_SP + sp_offset * 0x400);
            self.0.push(0x6D40_0000 + 4 * 0x400 + 9 * 0x20 + rt);
            self.0.push(0x6E00_0400 + (1 * 16 + 8) * 0x10000 + 0 * 0x4000 + 4 * 0x20 + rt);
        } else {
            self.0.push(0x6D40_0000 + (sp_offset / 8) * 0x8000 + 4 * 0x400 + 31 * 0x20 + rt);
            self.0.push(0x6E00_0400 + (1 * 16 + 8) * 0x10000 + 0 * 0x4000 + 4 * 0x20 + rt);
        }
        proof {
            assert(self.words() =~= old(self).words()
                + Self::op_words(AsmOp::Load(dst_reg, src_mem), old(self).mem()));
        }
    }

    #[verifier::rlimit(50)]
    fn build_store(&mut self, dst_mem: u32, src_reg: u8) {
        let sp_offset = self.0.check_stack(dst_mem, 16);
        let rt = reg(src_reg);
        if sp_offset >= 512 {
            self.0.push(ADD_X9_SP + sp_offset * 0x400);
            self.0.push(0x6E00_0400 + (0 * 16 + 8) * 0x10000 + 1 * 0x4000 + rt * 0x20 + 4);
            self.0.push(0x6D00_0000 + 4 * 0x400 + 9 * 0x20 + rt);
        } else {
            self.0.push(0x6E00_0400 + (0 * 16 + 8) * 0x10000 + 1 * 0x4000 + rt * 0x20 + 4);
            self.0.push(0x6D00_0000 + (sp_offset / 8) * 0x8000 + 4 * 0x400 + 31 * 0x20 + rt);
        }
        proof {
            assert(self.words() =~= old(self).words()
                + Self::op_words(AsmOp::Store(src_reg, dst_mem), old(self).mem()));
        }
    }

    fn build_input(&mut self, out_reg: u8, src_arg: u8) {
        let rd = reg(out_reg);
        self.0.push(0x4EA0_1C00 + (src_arg as u32) * 0x10000 + (src_arg as u32) * 0x20 + rd);
        proof {
            assert(self.words() =~= old(self).words()
                + Self::op_words(AsmOp::Input(out_reg, src_arg), old(self).mem()));
        }
    }

    fn build_copy(&mut self, out_reg: u8, lhs_reg: u8) {
        let rd = reg(out_reg);
        let rn = reg(lhs_reg);
        self.0.push(0x4EA0_1C00 + rn * 0x10000 + rn * 0x20 + rd);
        proof {
            assert(self.words() =~= old(self).words()
                + Self::op_words(AsmOp::CopyReg(out_reg, lhs_reg), old(self).mem()));
        }
    }

    fn build_neg(&mut self, out_reg: u8, lhs_reg: u8) {
        let rd = reg(out_reg);
        let rn = reg(lhs_reg);
        self.0.push(FNEG_4S + rn * 0x20 + rd);
        proof {
            assert(self.words() =~= old(self).words()
                + Self::op_words(AsmOp::NegReg(out_reg, lhs_reg), old(self).mem()));
        }
    }

    fn build_abs(&mut self, out_reg: u8, lhs_reg: u8) {
        let rd = reg(out_reg);
        let rn = reg(lhs_reg);
        self.0.push(FABS_4S + rn * 0x20 + rd);
        proof {
            assert(self.words() =~= old(self).words()
                + Self::op_words(AsmOp::AbsReg(out_reg, lhs_reg), old(self).mem()));
        }
    }

    fn build_recip(&mut self, out_reg: u8, lhs_reg: u8) {
        let rd = reg(out_reg);
        let rn = reg(lhs_reg);
        self.0.push(FMOV_S7_ONE);
        self.0.push(DUP_V7_4S_S0);
        self.0.push(FDIV_4S + rn * 0x10000 + 7 * 0x20 + rd);
        proof {
            assert(self.words() =~= old(self).words()
                + Self::op_words(AsmOp::RecipReg(out_reg, lhs_reg), old(self).mem()));
        }
    }

    fn build_sqrt(&mut self, out_reg: u8, lhs_reg: u8) {
        let rd = reg(out_reg);
        let rn = reg(lhs_reg);
        self.0.push(FSQRT_4S + rn * 0x20 + rd);
        proof {
            assert(self.words() =~= old(self).words()
                + Self::op_words(AsmOp::SqrtReg(out_reg, lhs_reg), old(self).mem()));
        }
    }

    fn build_square(&mut self, out_reg: u8, lhs_reg: u8) {
        let rd = reg(out_reg);
        let rn = reg(lhs_reg);
        self.0.push(FMUL_4S + rn * 0x10000 + rn * 0x20 + rd);
        proof {
            assert(self.words() =~= old(self).words()
                + Self::op_words(AsmOp::SquareReg(out_reg, lhs_reg), old(self).mem()));
        }
    }

    fn build_add(&mut self, out_reg: u8, lhs_reg: u8, rhs_reg: u8) {
        let rd = reg(out_reg);
        let rn = reg(lhs_reg);
        let rm = reg(rhs_reg);
        self.0.push(FADD_4S + rm * 0x10000 + rn * 0x20 + rd);
        proof {
            assert(self.words() =~= old(self).words()
                + Self::op_words(AsmOp::AddRegReg(out_reg, lhs_reg, rhs_reg), old(self).mem()));
        }
    }

    fn build_sub(&mut self, out_reg: u8, lhs_reg: u8, rhs_reg: u8) {
        let rd = reg(out_reg);
        let rn = reg(lhs_reg);
        let rm = reg(rhs_reg);
        self.0.push(FSUB_4S + rm * 0x10000 + rn * 0x20 + rd);
        proof {
            assert(self.words() =~= old(self).words()
                + Self::op_words(AsmOp::SubRegReg(out_reg, lhs_reg, rhs_reg), old(self).mem()));
        }
    }

    fn build_mul(&mut self, out_reg: u8, lhs_reg: u8, rhs_reg: u8) {
        let rd = reg(out_reg);
        let rn = reg(lhs_reg);
        let rm = reg(rhs_reg);
        self.0.push(FMUL_4S + rm * 0x10000 + rn * 0x20 + rd);
        proof {
            assert(self.words() =~= old(self).words()
                + Self::op_words(AsmOp::MulRegReg(out_reg, lhs_reg, rhs_reg), old(self).mem()));
        }
    }

    fn build_max(&mut self, out_reg: u8, lhs_reg: u8, rhs_reg: u8) {
        let rd = reg(out_reg);
        let rn = reg(lhs_reg);
        let rm = reg(rhs_reg);
        self.0.push(FMAX_4S + rm * 0x10000 + rn * 0x20 + rd);
        proof {
            assert(self.words() =~= old(self).words()
                + Self::op_words(AsmOp::MaxRegReg(out_reg, lhs_reg, rhs_reg), old(self).mem()));
        }
    }

    fn build_min(&mut self, out_reg: u8, lhs_reg: u8, rhs_reg: u8) {
        let rd = reg(out_reg);
        let rn = reg(lhs_reg);
        let rm = reg(rhs_reg);
        self.0.push(FMIN_4S + rm * 0x10000 + rn * 0x20 + rd);
        proof {
            assert(self.words() =~= old(self).words()
                + Self::op_words(AsmOp::MinRegReg(out_reg, lhs_reg, rhs_reg), old(self).mem()));
        }
    }

    fn load_imm(&mut self, imm: u32) -> (r: u8) {
        let (hi, lo) = split_imm(imm);
        self.0.push(0x52A0_0000 + hi * 0x20 + 9);
        self.0.push(0x7280_0000 + lo * 0x20 + 9);
        self.0.push(0x4E04_0C00 + 9 * 0x20 + IMM_REG as u32);
        proof {
            assert(self.words() =~= old(self).words() + Self::imm_words(imm));
        }
        IMM_REG.wrapping_sub(crate::OFFSET)
    }

    fn finalize(self, out_reg: u8) -> (code: Vec<u32>) {
        let ghost w0 = self.words();
        let ghost m0 = self.mem();
        let mut s = self;
        let rn = reg(out_reg);
        s.0.push(0x6E00_0400 + (0 * 16 + 8) * 0x10000 + 1 * 0x4000 + rn * 0x20 + 0);
        s.0.push(0x6D00_0000 + 0 * 0x400 + 3 * 0x20 + rn);
        s.0.push_restore();
        proof {
            assert(s.0.code@ =~= w0 + vec_epilogue(out_reg, m0));
        }
        s.0.code
    }
}

} // verus!
