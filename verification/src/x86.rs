//! x86-64 point flavor: the secondary target, scalar only and deliberately
//! partial.
//!
//! The compiled function has the C signature `fn(f32, f32, f32) -> f32`.
//! The prologue stashes xmm0-xmm2 onto the stack so those registers become
//! allocatable; virtual registers map to xmm registers through the same
//! offset as the primary target, so only virtual registers below 8 (backed
//! by xmm8-xmm15) are addressable here.  Only a subset of the virtual ISA is
//! lowered — neg, abs, add, sub, mul, min, max, copy, input and immediate
//! loads; spill transfers, reciprocal, square root and square are open
//! holes, and lowering reports them as errors rather than emitting anything
//! silently.  eax and the immediate register xmm6 are scratch for `load_imm`
//! and the sign-bit flips of `neg`/`abs`.

use vstd::prelude::*;
use crate::{IMM_REG, IMM_VREG, spec_reg, reg};
use crate::driver::align16;
use crate::exe::word_bytes;
use crate::ops::{AsmOp, MEM_LIMIT, Tape};

verus! {

/// The REX prefix an SSE instruction needs for register fields `r` (reg)
/// and `b` (r/m): absent when both are low registers.
pub open spec fn rex_rb(r: u32, b: u32) -> Seq<u8> {
    if r >= 8 && b >= 8 {
        seq![0x45u8]
    } else if r >= 8 {
        seq![0x44u8]
    } else if b >= 8 {
        seq![0x41u8]
    } else {
        Seq::empty()
    }
}

/// A register-to-register mod/rm byte.
pub open spec fn modrm_rr(r: u32, b: u32) -> u8 {
    (0xC0 + (r % 8) * 8 + (b % 8)) as u8
}

/// A scalar-single SSE instruction `op xmm_dst, xmm_src` (opcode `0x10` is
/// `movss`, `0x58` `addss`, `0x59` `mulss`, `0x5C` `subss`, `0x5D` `minss`,
/// `0x5E` `divss`, `0x5F` `maxss`).
pub open spec fn ss_op(opcode: u8, dst: u32, src: u32) -> Seq<u8> {
    seq![0xF3u8] + rex_rb(dst, src) + seq![0x0Fu8, opcode, modrm_rr(dst, src)]
}

/// A packed-single SSE instruction `op xmm_dst, xmm_src` (opcode `0x54` is
/// `andps`, `0x57` `xorps`).
pub open spec fn ps_op(opcode: u8, dst: u32, src: u32) -> Seq<u8> {
    rex_rb(dst, src) + seq![0x0Fu8, opcode, modrm_rr(dst, src)]
}

/// `movss xmm_r, [rbp - disp]` (`load` true) or the store form.
pub open spec fn ss_rbp(load: bool, r: u32, disp: u8) -> Seq<u8> {
    seq![0xF3u8] + (if r >= 8 {
        seq![0x44u8]
    } else {
        Seq::<u8>::empty()
    }) + seq![
        0x0Fu8,
        (if load { 0x10u8 } else { 0x11u8 }),
        (0x45 + (r % 8) * 8) as u8,
        ((256 - disp) % 256) as u8,
    ]
}

/// `movss xmm_r, [rsp - 4]` (`load` true) or the store form: the scratch
/// slot `build_op` parks a register in.
pub open spec fn ss_rsp4(load: bool, r: u32) -> Seq<u8> {
    seq![0xF3u8] + (if r >= 8 {
        seq![0x44u8]
    } else {
        Seq::<u8>::empty()
    }) + seq![
        0x0Fu8,
        (if load { 0x10u8 } else { 0x11u8 }),
        (0x44 + (r % 8) * 8) as u8,
        0x24u8,
        0xFCu8,
    ]
}

/// `mov eax, imm32` followed by `movd xmm_d, eax`.
pub open spec fn eax_to_xmm(imm: u32, d: u32) -> Seq<u8> {
    seq![0xB8u8] + word_bytes(imm) + seq![0x66u8] + (if d >= 8 {
        seq![0x44u8]
    } else {
        Seq::<u8>::empty()
    }) + seq![0x0Fu8, 0x6Eu8, modrm_rr(d, 0)]
}

/// Words of an immediate load: the bit pattern goes through eax into the
/// immediate register.
pub open spec fn x86_imm_bytes(imm: u32) -> Seq<u8> {
    eax_to_xmm(imm, IMM_REG as u32)
}

/// The two-operand lowering scheme: when the output aliases the left
/// operand, the operation runs in place; otherwise the left operand is
/// parked at `[rsp - 4]`, the operation and an `addss` combine into the
/// output, and the left operand is restored.
pub open spec fn x86_bin_bytes(opcode: u8, out: u8, lhs: u8, rhs: u8) -> Seq<u8> {
    if lhs == out {
        ss_op(opcode, spec_reg(out), spec_reg(rhs))
    } else {
        ss_rsp4(false, spec_reg(lhs))
            + ss_op(opcode, spec_reg(out), spec_reg(rhs))
            + ss_op(0x58, spec_reg(lhs), spec_reg(rhs))
            + ss_op(0x10, spec_reg(out), spec_reg(lhs))
            + ss_rsp4(true, spec_reg(lhs))
    }
}

/// Sign-bit manipulation for `neg` (`xorps` with `0x80000000`) and `abs`
/// (`andps` with `0x7FFFFFFF`): through the immediate register when the
/// output aliases the operand, directly into the output otherwise.
pub open spec fn x86_sign_bytes(mask: u32, opcode: u8, out: u8, lhs: u8) -> Seq<u8> {
    if out == lhs {
        eax_to_xmm(mask, IMM_REG as u32)
            + ps_op(opcode, IMM_REG as u32, spec_reg(lhs))
            + ss_op(0x10, spec_reg(out), IMM_REG as u32)
    } else {
        eax_to_xmm(mask, spec_reg(out)) + ps_op(opcode, spec_reg(out), spec_reg(lhs))
    }
}

/// Whether the x86-64 point flavor can lower an instruction: spill
/// transfers, reciprocal, square root and square are open holes.
pub open spec fn x86_supported(op: AsmOp) -> bool {
    match op {
        AsmOp::Load(_, _) => false,
        AsmOp::Store(_, _) => false,
        AsmOp::RecipReg(_, _) => false,
        AsmOp::SqrtReg(_, _) => false,
        AsmOp::SquareReg(_, _) => false,
        _ => true,
    }
}

/// Whether every register operand of the tape is addressable here: the
/// virtual register file is limited to 8 registers on this target.
pub open spec fn x86_op_wf(op: AsmOp) -> bool {
    match op {
        AsmOp::Load(reg, _) => reg < 8,
        AsmOp::Store(reg, _) => reg < 8,
        AsmOp::Input(out, arg) => out < 8 && arg < 3,
        AsmOp::CopyReg(out, a) => out < 8 && a < 8,
        AsmOp::NegReg(out, a) => out < 8 && a < 8,
        AsmOp::AbsReg(out, a) => out < 8 && a < 8,
        AsmOp::RecipReg(out, a) => out < 8 && a < 8,
        AsmOp::SqrtReg(out, a) => out < 8 && a < 8,
        AsmOp::SquareReg(out, a) => out < 8 && a < 8,
        AsmOp::AddRegReg(out, a, b) => out < 8 && a < 8 && b < 8,
        AsmOp::MulRegReg(out, a, b) => out < 8 && a < 8 && b < 8,
        AsmOp::SubRegReg(out, a, b) => out < 8 && a < 8 && b < 8,
        AsmOp::MinRegReg(out, a, b) => out < 8 && a < 8 && b < 8,
        AsmOp::MaxRegReg(out, a, b) => out < 8 && a < 8 && b < 8,
        AsmOp::AddRegImm(out, a, _) => out < 8 && a < 8,
        AsmOp::MulRegImm(out, a, _) => out < 8 && a < 8,
        AsmOp::SubImmReg(out, a, _) => out < 8 && a < 8,
        AsmOp::SubRegImm(out, a, _) => out < 8 && a < 8,
        AsmOp::MinRegImm(out, a, _) => out < 8 && a < 8,
        AsmOp::MaxRegImm(out, a, _) => out < 8 && a < 8,
        AsmOp::CopyImm(out, _) => out < 8,
    }
}

/// Well-formedness of a whole tape for this target.
pub open spec fn x86_tape_wf(ops: Seq<AsmOp>) -> bool {
    forall|i: int| 0 <= i < ops.len() ==> x86_op_wf(#[trigger] ops[i])
}

/// Bytes lowering one supported instruction.
pub open spec fn x86_op_bytes(op: AsmOp) -> Seq<u8> {
    match op {
        AsmOp::Input(out, j) => ss_rbp(true, spec_reg(out), (4 * (j + 1)) as u8),
        AsmOp::CopyReg(out, a) => ss_op(0x10, spec_reg(out), spec_reg(a)),
        AsmOp::NegReg(out, a) => x86_sign_bytes(0x8000_0000, 0x57, out, a),
        AsmOp::AbsReg(out, a) => x86_sign_bytes(0x7FFF_FFFF, 0x54, out, a),
        AsmOp::AddRegReg(o, l, r) => x86_bin_bytes(0x58, o, l, r),
        AsmOp::MulRegReg(o, l, r) => x86_bin_bytes(0x59, o, l, r),
        AsmOp::SubRegReg(o, l, r) => x86_bin_bytes(0x5C, o, l, r),
        AsmOp::MinRegReg(o, l, r) => x86_bin_bytes(0x5D, o, l, r),
        AsmOp::MaxRegReg(o, l, r) => x86_bin_bytes(0x5F, o, l, r),
        AsmOp::AddRegImm(o, a, imm) => x86_imm_bytes(imm) + x86_bin_bytes(0x58, o, a, IMM_VREG),
        AsmOp::MulRegImm(o, a, imm) => x86_imm_bytes(imm) + x86_bin_bytes(0x59, o, a, IMM_VREG),
        AsmOp::SubImmReg(o, a, imm) => x86_imm_bytes(imm) + x86_bin_bytes(0x5C, o, IMM_VREG, a),
        AsmOp::SubRegImm(o, a, imm) => x86_imm_bytes(imm) + x86_bin_bytes(0x5C, o, a, IMM_VREG),
        AsmOp::MinRegImm(o, a, imm) => x86_imm_bytes(imm) + x86_bin_bytes(0x5D, o, a, IMM_VREG),
        AsmOp::MaxRegImm(o, a, imm) => x86_imm_bytes(imm) + x86_bin_bytes(0x5F, o, a, IMM_VREG),
        AsmOp::CopyImm(o, imm) => x86_imm_bytes(imm) + ss_op(0x10, spec_reg(o), spec_reg(IMM_VREG)),
        _ => Seq::empty(),
    }
}

/// Bytes lowering the first `i` instructions.
pub open spec fn x86_tape_bytes(ops: Seq<AsmOp>, i: int) -> Seq<u8>
    decreases i,
{
    if i <= 0 {
        Seq::empty()
    } else {
        x86_tape_bytes(ops, i - 1) + x86_op_bytes(ops[i - 1])
    }
}

/// Prologue bytes: set up the frame, stash xmm0-xmm2 so those registers
/// become allocatable, and reserve the spill frame.
pub open spec fn x86_prologue(slots: nat) -> Seq<u8> {
    seq![0x55u8, 0x48u8, 0x89u8, 0xE5u8]
        + ss_rbp(false, 0, 4) + ss_rbp(false, 1, 8) + ss_rbp(false, 2, 12)
        + (if slots * 4 == 0 {
        Seq::<u8>::empty()
    } else {
        seq![0x48u8, 0x81u8, 0xECu8] + word_bytes(align16(slots * 4) as u32)
    })
}

/// Epilogue bytes: the result moves to xmm0, the frame unwinds, control
/// returns.
pub open spec fn x86_epilogue(out: u8, mem: nat) -> Seq<u8> {
    ss_op(0x10, 0, spec_reg(out)) + seq![0x5Du8, 0x48u8, 0x81u8, 0xC4u8]
        + word_bytes(mem as u32) + seq![0xC3u8]
}

/// The complete x86-64 byte stream for a tape whose instructions are all
/// supported, returning virtual register 0.
pub open spec fn x86_code(ops: Seq<AsmOp>, slots: nat) -> Seq<u8> {
    x86_prologue(slots) + x86_tape_bytes(ops, ops.len() as int)
        + x86_epilogue(0, align16(slots * 4))
}

/// Assembler for the x86-64 point flavor: raw bytes, since this target's
/// instructions are variable length.
pub struct PointAssemblerX86 {
    /// Emitted bytes, in order.
    pub code: Vec<u8>,
    /// Bytes of spill frame reserved up front.
    pub mem_offset: usize,
}

/// Checks a tape's registers against this target's smaller register file.
pub fn check_x86(t: &Tape) -> (ok: bool)
    ensures
        ok == x86_tape_wf(t.ops@),
{
    let mut i: usize = 0;
    while i < t.ops.len()
        invariant
            i <= t.ops@.len(),
            forall|j: int| 0 <= j < i ==> x86_op_wf(#[trigger] t.ops@[j]),
        decreases t.ops@.len() - i,
    {
        let ok = match t.ops[i] {
            AsmOp::Load(reg, _) => reg < 8,
            AsmOp::Store(reg, _) => reg < 8,
            AsmOp::Input(out, arg) => out < 8 && arg < 3,
            AsmOp::CopyReg(out, a) => out < 8 && a < 8,
            AsmOp::NegReg(out, a) => out < 8 && a < 8,
            AsmOp::AbsReg(out, a) => out < 8 && a < 8,
            AsmOp::RecipReg(out, a) => out < 8 && a < 8,
            AsmOp::SqrtReg(out, a) => out < 8 && a < 8,
            AsmOp::SquareReg(out, a) => out < 8 && a < 8,
            AsmOp::AddRegReg(out, a, b) => out < 8 && a < 8 && b < 8,
            AsmOp::MulRegReg(out, a, b) => out < 8 && a < 8 && b < 8,
            AsmOp::SubRegReg(out, a, b) => out < 8 && a < 8 && b < 8,
            AsmOp::MinRegReg(out, a, b) => out < 8 && a < 8 && b < 8,
            AsmOp::MaxRegReg(out, a, b) => out < 8 && a < 8 && b < 8,
            AsmOp::AddRegImm(out, a, _) => out < 8 && a < 8,
            AsmOp::MulRegImm(out, a, _) => out < 8 && a < 8,
            AsmOp::SubImmReg(out, a, _) => out < 8 && a < 8,
            AsmOp::SubRegImm(out, a, _) => out < 8 && a < 8,
            AsmOp::MinRegImm(out, a, _) => out < 8 && a < 8,
            AsmOp::MaxRegImm(out, a, _) => out < 8 && a < 8,
            AsmOp::CopyImm(out, _) => out < 8,
        };
        if !ok {
            return false;
        }
        i = i + 1;
    }
    true
}

impl PointAssemblerX86 {
    fn push_ss_op(&mut self, opcode: u8, dst: u32, src: u32)
        requires
            dst < 16,
            src < 16,
        ensures
            final(self).code@ == old(self).code@ + ss_op(opcode, dst, src),
            final(self).mem_offset == old(self).mem_offset,
    {
        self.code.push(0xF3);
        self.push_rex_and_op(opcode, dst, src);
    }

    fn push_ps_op(&mut self, opcode: u8, dst: u32, src: u32)
        requires
            dst < 16,
            src < 16,
        ensures
            final(self).code@ == old(self).code@ + ps_op(opcode, dst, src),
            final(self).mem_offset == old(self).mem_offset,
    {
        self.push_rex_and_op(opcode, dst, src);
        proof {
            assert(self.code@ =~= old(self).code@ + ps_op(opcode, dst, src));
        }
    }

    fn push_rex_and_op(&mut self, opcode: u8, dst: u32, src: u32)
        requires
            dst < 16,
            src < 16,
        ensures
            final(self).code@ == old(self).code@ + rex_rb(dst, src)
                + seq![0x0Fu8, opcode, modrm_rr(dst, src)],
            final(self).mem_offset == old(self).mem_offset,
    {
        if dst >= 8 && src >= 8 {
            self.code.push(0x45);
        } else if dst >= 8 {
            self.code.push(0x44);
        } else if src >= 8 {
            self.code.push(0x41);
        }
        self.code.push(0x0F);
        self.code.push(opcode);
        self.code.push((0xC0 + (dst % 8) * 8 + (src % 8)) as u8);
        proof {
            assert(self.code@ =~= old(self).code@ + rex_rb(dst, src)
                + seq![0x0Fu8, opcode, modrm_rr(dst, src)]);
        }
    }

    fn push_rsp4(&mut self, load: bool, r: u32)
        requires
            r < 16,
        ensures
            final(self).code@ == old(self).code@ + ss_rsp4(load, r),
            final(self).mem_offset == old(self).mem_offset,
    {
        self.code.push(0xF3);
        if r >= 8 {
            self.code.push(0x44);
        }
        self.code.push(0x0F);
        self.code.push(if load { 0x10 } else { 0x11 });
        self.code.push((0x44 + (r % 8) * 8) as u8);
        self.code.push(0x24);
        self.code.push(0xFC);
        proof {
            assert(self.code@ =~= old(self).code@ + ss_rsp4(load, r));
        }
    }

    fn push_rbp(&mut self, load: bool, r: u32, disp: u8)
        requires
            r < 16,
            0 < disp <= 128,
        ensures
            final(self).code@ == old(self).code@ + ss_rbp(load, r, disp),
            final(self).mem_offset == old(self).mem_offset,
    {
        self.code.push(0xF3);
        if r >= 8 {
            self.code.push(0x44);
        }
        self.code.push(0x0F);
        self.code.push(if load { 0x10 } else { 0x11 });
        self.code.push((0x45 + (r % 8) * 8) as u8);
        self.code.push((256 - disp as u32) as u8);
        proof {
            assert(self.code@ =~= old(self).code@ + ss_rbp(load, r, disp));
        }
    }

    fn push_eax_to_xmm(&mut self, imm: u32, d: u32)
        requires
            d < 16,
        ensures
            final(self).code@ == old(self).code@ + eax_to_xmm(imm, d),
            final(self).mem_offset == old(self).mem_offset,
    {
        proof {
            assert(imm & 0xFF < 0x100 && (imm >> 8) & 0xFF < 0x100 && (imm >> 16) & 0xFF < 0x100
                && (imm >> 24) & 0xFF < 0x100) by (bit_vector);
        }
        self.code.push(0xB8);
        self.code.push((imm & 0xFF) as u8);
        self.code.push(((imm >> 8) & 0xFF) as u8);
        self.code.push(((imm >> 16) & 0xFF) as u8);
        self.code.push(((imm >> 24) & 0xFF) as u8);
        self.code.push(0x66);
        if d >= 8 {
            self.code.push(0x44);
        }
        self.code.push(0x0F);
        self.code.push(0x6E);
        self.code.push((0xC0 + (d % 8) * 8) as u8);
        proof {
            assert(self.code@ =~= old(self).code@ + eax_to_xmm(imm, d));
        }
    }

    /// Emits the prologue and reserves `slot_count` spill slots.
    pub fn init(slot_count: usize) -> (s: Self)
        requires
            slot_count * 4 <= MEM_LIMIT as nat,
        ensures
            s.code@ == x86_prologue(slot_count as nat),
            s.mem_offset == align16(slot_count as nat * 4),
            s.mem_offset <= MEM_LIMIT,
    {
        let mut s = PointAssemblerX86 { code: Vec::new(), mem_offset: 0 };
        s.code.push(0x55);
        s.code.push(0x48);
        s.code.push(0x89);
        s.code.push(0xE5);
        s.push_rbp(false, 0, 4);
        s.push_rbp(false, 1, 8);
        s.push_rbp(false, 2, 12);
        let sz: usize = slot_count * 4;
        if sz > 0 {
            let aligned: usize = ((sz + 15) / 16) * 16;
            let a32: u32 = aligned as u32;
            s.code.push(0x48);
            s.code.push(0x81);
            s.code.push(0xEC);
            s.code.push((a32 & 0xFF) as u8);
            s.code.push(((a32 >> 8) & 0xFF) as u8);
            s.code.push(((a32 >> 16) & 0xFF) as u8);
            s.code.push(((a32 >> 24) & 0xFF) as u8);
            s.mem_offset = aligned;
            proof {
                assert(a32 & 0xFF < 0x100 && (a32 >> 8) & 0xFF < 0x100
                    && (a32 >> 16) & 0xFF < 0x100 && (a32 >> 24) & 0xFF < 0x100)
                    by (bit_vector);
                assert(s.code@ =~= x86_prologue(slot_count as nat));
            }
        } else {
            proof {
                assert(s.code@ =~= x86_prologue(slot_count as nat));
            }
        }
        s
    }

    /// Copies input argument `src_arg` (x, y or z) from its stash slot.
    pub fn build_input(&mut self, out_reg: u8, src_arg: u8)
        requires
            out_reg < 8,
            src_arg < 3,
        ensures
            final(self).code@ == old(self).code@
                + x86_op_bytes(AsmOp::Input(out_reg, src_arg)),
            final(self).mem_offset == old(self).mem_offset,
    {
        let r = reg(out_reg);
        self.push_rbp(true, r, 4 * (src_arg + 1));
    }

    /// Copies a register.
    pub fn build_copy(&mut self, out_reg: u8, lhs_reg: u8)
        requires
            out_reg < 8,
            lhs_reg < 8 || lhs_reg == IMM_VREG,
        ensures
            final(self).code@ == old(self).code@
                + ss_op(0x10, spec_reg(out_reg), spec_reg(lhs_reg)),
            final(self).mem_offset == old(self).mem_offset,
    {
        let rd = reg(out_reg);
        let rn = reg(lhs_reg);
        self.push_ss_op(0x10, rd, rn);
    }

    /// Flips the sign bit.
    pub fn build_neg(&mut self, out_reg: u8, lhs_reg: u8)
        requires
            out_reg < 8,
            lhs_reg < 8,
        ensures
            final(self).code@ == old(self).code@
                + x86_op_bytes(AsmOp::NegReg(out_reg, lhs_reg)),
            final(self).mem_offset == old(self).mem_offset,
    {
        self.build_sign(0x8000_0000, 0x57, out_reg, lhs_reg);
        proof {
            assert(final(self).code@ =~= old(self).code@
                + x86_op_bytes(AsmOp::NegReg(out_reg, lhs_reg)));
        }
    }

    /// Clears the sign bit.
    pub fn build_abs(&mut self, out_reg: u8, lhs_reg: u8)
        requires
            out_reg < 8,
            lhs_reg < 8,
        ensures
            final(self).code@ == old(self).code@
                + x86_op_bytes(AsmOp::AbsReg(out_reg, lhs_reg)),
            final(self).mem_offset == old(self).mem_offset,
    {
        self.build_sign(0x7FFF_FFFF, 0x54, out_reg, lhs_reg);
        proof {
            assert(final(self).code@ =~= old(self).code@
                + x86_op_bytes(AsmOp::AbsReg(out_reg, lhs_reg)));
        }
    }

    fn build_sign(&mut self, mask: u32, opcode: u8, out_reg: u8, lhs_reg: u8)
        requires
            out_reg < 8,
            lhs_reg < 8,
        ensures
            final(self).code@ == old(self).code@
                + x86_sign_bytes(mask, opcode, out_reg, lhs_reg),
            final(self).mem_offset == old(self).mem_offset,
    {
        let rd = reg(out_reg);
        let rn = reg(lhs_reg);
        if out_reg == lhs_reg {
            self.push_eax_to_xmm(mask, IMM_REG as u32);
            self.push_ps_op(opcode, IMM_REG as u32, rn);
            self.push_ss_op(0x10, rd, IMM_REG as u32);
        } else {
            self.push_eax_to_xmm(mask, rd);
            self.push_ps_op(opcode, rd, rn);
        }
        proof {
            assert(final(self).code@ =~= old(self).code@
                + x86_sign_bytes(mask, opcode, out_reg, lhs_reg));
        }
    }

    /// The shared two-operand scheme (see [`x86_bin_bytes`]).
    pub fn build_op(&mut self, opcode: u8, out_reg: u8, lhs_reg: u8, rhs_reg: u8)
        requires
            out_reg < 8,
            lhs_reg < 8 || lhs_reg == IMM_VREG,
            rhs_reg < 8 || rhs_reg == IMM_VREG,
        ensures
            final(self).code@ == old(self).code@
                + x86_bin_bytes(opcode, out_reg, lhs_reg, rhs_reg),
            final(self).mem_offset == old(self).mem_offset,
    {
        let rd = reg(out_reg);
        let rn = reg(lhs_reg);
        let rm = reg(rhs_reg);
        if lhs_reg == out_reg {
            self.push_ss_op(opcode, rd, rm);
        } else {
            self.push_rsp4(false, rn);
            self.push_ss_op(opcode, rd, rm);
            self.push_ss_op(0x58, rn, rm);
            self.push_ss_op(0x10, rd, rn);
            self.push_rsp4(true, rn);
        }
        proof {
            assert(final(self).code@ =~= old(self).code@
                + x86_bin_bytes(opcode, out_reg, lhs_reg, rhs_reg));
        }
    }

    /// Loads an immediate bit pattern into the immediate register through
    /// eax, returning that register's virtual index.
    pub fn load_imm(&mut self, imm: u32) -> (r: u8)
        ensures
            r == IMM_VREG,
            final(self).code@ == old(self).code@ + x86_imm_bytes(imm),
            final(self).mem_offset == old(self).mem_offset,
    {
        self.push_eax_to_xmm(imm, IMM_REG as u32);
        IMM_REG.wrapping_sub(crate::OFFSET)
    }

    /// Emits the epilogue, consuming the assembler: the compiled function
    /// returns the value of `out_reg` in xmm0.
    pub fn finalize(self, out_reg: u8) -> (code: Vec<u8>)
        requires
            out_reg < 8,
            self.mem_offset <= MEM_LIMIT,
        ensures
            code@ == self.code@ + x86_epilogue(out_reg, self.mem_offset as nat),
    {
        let ghost c0 = self.code@;
        let ghost m0 = self.mem_offset as nat;
        let mut s = self;
        let rn = reg(out_reg);
        s.push_ss_op(0x10, 0, rn);
        s.code.push(0x5D);
        s.code.push(0x48);
        s.code.push(0x81);
        s.code.push(0xC4);
        let mem32: u32 = s.mem_offset as u32;
        s.code.push((mem32 & 0xFF) as u8);
        s.code.push(((mem32 >> 8) & 0xFF) as u8);
        s.code.push(((mem32 >> 16) & 0xFF) as u8);
        s.code.push(((mem32 >> 24) & 0xFF) as u8);
        s.code.push(0xC3);
        proof {
            assert(mem32 & 0xFF < 0x100 && (mem32 >> 8) & 0xFF < 0x100
                && (mem32 >> 16) & 0xFF < 0x100 && (mem32 >> 24) & 0xFF < 0x100)
                by (bit_vector);
            assert(s.code@ =~= c0 + x86_epilogue(out_reg, m0));
        }
        s.code
    }
}

/// Streams a tape through the x86-64 point flavor.  Returns the byte stream
/// when every instruction is supported; otherwise returns the first
/// unsupported instruction untouched, emitting nothing for it — the holes of
/// this target are reported, never silently skipped.
#[verifier::rlimit(50)]
pub fn build_point_x86(t: &Tape, slot_count: usize) -> (r: Result<Vec<u8>, AsmOp>)
    requires
        x86_tape_wf(t.ops@),
        slot_count * 4 <= MEM_LIMIT as nat,
    ensures
        r is Ok <==> (forall|i: int| 0 <= i < t.ops@.len() ==> x86_supported(#[trigger] t.ops@[i])),
        r matches Ok(code) ==> code@ == x86_code(t.ops@, slot_count as nat),
        r matches Err(op) ==> exists|i: int|
            0 <= i < t.ops@.len() && op == t.ops@[i] && !x86_supported(t.ops@[i])
                && (forall|j: int| 0 <= j < i ==> x86_supported(#[trigger] t.ops@[j])),
{
    let mut emit = PointAssemblerX86::init(slot_count);
    let ghost head = x86_prologue(slot_count as nat);
    let mut i: usize = 0;
    while i < t.ops.len()
        invariant
            x86_tape_wf(t.ops@),
            i <= t.ops@.len(),
            emit.code@ == head + x86_tape_bytes(t.ops@, i as int),
            emit.mem_offset == align16(slot_count as nat * 4),
            emit.mem_offset <= MEM_LIMIT,
            forall|j: int| 0 <= j < i ==> x86_supported(#[trigger] t.ops@[j]),
        decreases t.ops@.len() - i,
    {
        let op = t.ops[i];
        proof {
            assert(x86_op_wf(t.ops@[i as int]));
        }
        match op {
            AsmOp::Input(out, j) => {
                emit.build_input(out, j);
            }
            AsmOp::CopyReg(out, a) => {
                emit.build_copy(out, a);
            }
            AsmOp::NegReg(out, a) => {
                emit.build_neg(out, a);
            }
            AsmOp::AbsReg(out, a) => {
                emit.build_abs(out, a);
            }
            AsmOp::AddRegReg(out, l, rr) => {
                emit.build_op(0x58, out, l, rr);
            }
            AsmOp::MulRegReg(out, l, rr) => {
                emit.build_op(0x59, out, l, rr);
            }
            AsmOp::SubRegReg(out, l, rr) => {
                emit.build_op(0x5C, out, l, rr);
            }
            AsmOp::MinRegReg(out, l, rr) => {
                emit.build_op(0x5D, out, l, rr);
            }
            AsmOp::MaxRegReg(out, l, rr) => {
                emit.build_op(0x5F, out, l, rr);
            }
            AsmOp::AddRegImm(out, a, imm) => {
                let v = emit.load_imm(imm);
                emit.build_op(0x58, out, a, v);
            }
            AsmOp::MulRegImm(out, a, imm) => {
                let v = emit.load_imm(imm);
                emit.build_op(0x59, out, a, v);
            }
            AsmOp::SubImmReg(out, a, imm) => {
                let v = emit.load_imm(imm);
                emit.build_op(0x5C, out, v, a);
            }
            AsmOp::SubRegImm(out, a, imm) => {
                let v = emit.load_imm(imm);
                emit.build_op(0x5C, out, a, v);
            }
            AsmOp::MinRegImm(out, a, imm) => {
                let v = emit.load_imm(imm);
                emit.build_op(0x5D, out, a, v);
            }
            AsmOp::MaxRegImm(out, a, imm) => {
                let v = emit.load_imm(imm);
                emit.build_op(0x5F, out, a, v);
            }
            AsmOp::CopyImm(out, imm) => {
                let v = emit.load_imm(imm);
                emit.build_copy(out, v);
            }
            AsmOp::Load(_, _) => {
                return Err(op);
            }
            AsmOp::Store(_, _) => {
                return Err(op);
            }
            AsmOp::RecipReg(_, _) => {
                return Err(op);
            }
            AsmOp::SqrtReg(_, _) => {
                return Err(op);
            }
            AsmOp::SquareReg(_, _) => {
                return Err(op);
            }
        }
        proof {
            assert(emit.code@ =~= head + x86_tape_bytes(t.ops@, i as int + 1));
        }
        i = i + 1;
    }
    Ok(emit.finalize(0))
}

} // verus!
