//! Flavor-generic assembly machinery.
//!
//! [`AssemblerData`] is the state every flavor shares: the emitted words and
//! the current spill-frame size.  [`AssemblerT`] is the capability set a
//! flavor supplies; [`build_asm_fn`] is the language-neutral driver that
//! streams a tape through a flavor, expanding immediate operands through the
//! reserved immediate register on the way.

use vstd::prelude::*;
use crate::{IMM_VREG, REGISTER_LIMIT, valid_vreg};
use crate::enc::{
    ADD_SP, LDP_D10_D11, LDP_D12_D13, LDP_D14_D15, LDP_D8_D9, LDP_X29_X30, MOV_X29_SP, RET,
    STP_D10_D11, STP_D12_D13, STP_D14_D15, STP_D8_D9, STP_X29_X30, SUB_SP, e_sp,
};
use crate::ops::{AsmOp, MEM_LIMIT, Tape, slot_ok, slot_bytes, tape_wf, op_wf};

verus! {

/// Words saving the frame and link registers and the callee-saved low halves
/// of v8-v15: the head of every flavor's prologue.
pub open spec fn prologue_head() -> Seq<u32> {
    seq![STP_X29_X30, MOV_X29_SP, STP_D8_D9, STP_D10_D11, STP_D12_D13, STP_D14_D15]
}

/// Words unwinding a `mem`-byte spill frame, restoring the saved registers
/// and returning: the tail of every flavor's epilogue.
pub open spec fn restore_words(mem: nat) -> Seq<u32> {
    seq![
        e_sp(ADD_SP, mem),
        LDP_D14_D15,
        LDP_D12_D13,
        LDP_D10_D11,
        LDP_D8_D9,
        LDP_X29_X30,
        RET,
    ]
}

/// `n` rounded up to the next multiple of 16: stack growth keeps the stack
/// pointer 16-byte aligned.
pub open spec fn align16(n: nat) -> nat {
    ((n + 15) / 16) * 16
}

/// Byte distance from the top of the spill area to the start of slot `m`.
pub open spec fn slot_start(m: u32, size: nat) -> nat {
    ((m as nat - REGISTER_LIMIT as nat) * size) as nat
}

/// Spill-frame size after slot `m` has been touched: the frame grows, in
/// aligned steps, exactly when the slot lies outside the current frame.
pub open spec fn grow_mem(mem: nat, m: u32, size: nat) -> nat {
    if slot_start(m, size) > mem {
        align16(slot_start(m, size))
    } else {
        mem
    }
}

/// Words emitted to grow the frame for slot `m`: one `sub sp` when the frame
/// grows, nothing otherwise.
pub open spec fn grow_words(mem: nat, m: u32, size: nat) -> Seq<u32> {
    if slot_start(m, size) > mem {
        seq![e_sp(SUB_SP, (align16(slot_start(m, size)) - mem) as nat)]
    } else {
        Seq::empty()
    }
}

/// Stack-pointer offset at which slot `m` is addressed once the frame has
/// grown to cover it.
pub open spec fn slot_offset(mem: nat, m: u32, size: nat) -> nat {
    (grow_mem(mem, m, size) - slot_start(m, size)) as nat
}

/// Spill-frame size after lowering one instruction: only `Load` and `Store`
/// touch the frame.
pub open spec fn op_mem(op: AsmOp, mem: nat, size: nat) -> nat {
    match op {
        AsmOp::Load(_, m) => grow_mem(mem, m, size),
        AsmOp::Store(_, m) => grow_mem(mem, m, size),
        _ => mem,
    }
}

/// Spill-frame size after lowering a whole instruction sequence.
pub open spec fn seq_mem(ops: Seq<AsmOp>, mem: nat, size: nat) -> nat
    decreases ops.len(),
{
    if ops.len() == 0 {
        mem
    } else {
        seq_mem(ops.skip(1), op_mem(ops[0], mem, size), size)
    }
}

/// Words emitted for a whole instruction sequence, threading the frame size
/// through: `f` gives one instruction's words as a function of the frame
/// size at that point.
pub open spec fn tape_words(
    ops: Seq<AsmOp>,
    mem: nat,
    f: spec_fn(AsmOp, nat) -> Seq<u32>,
    size: nat,
) -> Seq<u32>
    decreases ops.len(),
{
    if ops.len() == 0 {
        Seq::empty()
    } else {
        f(ops[0], mem) + tape_words(ops.skip(1), op_mem(ops[0], mem, size), f, size)
    }
}

/// Spill-frame size reserved up front for `slots` spill slots.
pub open spec fn init_mem(slots: nat, size: nat) -> nat {
    align16(slots * size)
}

/// Words reserving the initial spill frame: one `sub sp` when any slots were
/// requested.
pub open spec fn init_mem_words(slots: nat, size: nat) -> Seq<u32> {
    if slots * size == 0 {
        Seq::empty()
    } else {
        seq![e_sp(SUB_SP, align16(slots * size))]
    }
}

/// Lowering a prefix extends one instruction at a time.
pub proof fn lemma_tape_words_step(
    ops: Seq<AsmOp>,
    i: int,
    mem0: nat,
    f: spec_fn(AsmOp, nat) -> Seq<u32>,
    size: nat,
)
    requires
        0 <= i < ops.len(),
    ensures
        tape_words(ops.take(i + 1), mem0, f, size)
            == tape_words(ops.take(i), mem0, f, size)
                + f(ops[i], seq_mem(ops.take(i), mem0, size)),
        seq_mem(ops.take(i + 1), mem0, size)
            == op_mem(ops[i], seq_mem(ops.take(i), mem0, size), size),
    decreases i,
{
    reveal_with_fuel(tape_words, 2);
    reveal_with_fuel(seq_mem, 2);
    let a = ops.take(i + 1);
    let b = ops.take(i);
    if i == 0 {
        assert(a[0] == ops[0]);
        assert(a.skip(1) =~= Seq::<AsmOp>::empty());
        assert(b =~= Seq::<AsmOp>::empty());
        assert(tape_words(a, mem0, f, size) =~= tape_words(b, mem0, f, size) + f(ops[0], mem0));
    } else {
        let mem1 = op_mem(ops[0], mem0, size);
        lemma_tape_words_step(ops.skip(1), i - 1, mem1, f, size);
        assert(a.skip(1) =~= ops.skip(1).take(i));
        assert(b.skip(1) =~= ops.skip(1).take(i - 1));
        assert(ops.skip(1)[i - 1] == ops[i]);
        assert(a[0] == ops[0] && b[0] == ops[0]);
        assert(tape_words(a, mem0, f, size)
            =~= tape_words(b, mem0, f, size) + f(ops[i], seq_mem(b, mem0, size)));
    }
}

/// Occurrences of the word `w` in `s` at positions `i` and beyond.
pub open spec fn count_from(s: Seq<u32>, w: u32, i: int) -> nat
    decreases s.len() - i,
{
    if i < 0 || i >= s.len() {
        0
    } else {
        (if s[i] == w { 1nat } else { 0nat }) + count_from(s, w, i + 1)
    }
}

/// Occurrences of the word `w` in `s`.
pub open spec fn count_word(s: Seq<u32>, w: u32) -> nat {
    count_from(s, w, 0)
}

proof fn lemma_count_from_offset(a: Seq<u32>, b: Seq<u32>, w: u32, j: int)
    requires
        0 <= j <= b.len(),
    ensures
        count_from(a + b, w, a.len() + j) == count_from(b, w, j),
    decreases b.len() - j,
{
    if j < b.len() {
        lemma_count_from_offset(a, b, w, j + 1);
        assert((a + b)[a.len() + j] == b[j]);
    }
}

proof fn lemma_count_from_concat(a: Seq<u32>, b: Seq<u32>, w: u32, i: int)
    requires
        0 <= i <= a.len(),
    ensures
        count_from(a + b, w, i) == count_from(a, w, i) + count_from(b, w, 0),
    decreases a.len() - i,
{
    if i == a.len() {
        lemma_count_from_offset(a, b, w, 0);
    } else {
        lemma_count_from_concat(a, b, w, i + 1);
        assert((a + b)[i] == a[i]);
    }
}

/// Counting a word distributes over concatenation.
pub proof fn lemma_count_word_concat(a: Seq<u32>, b: Seq<u32>, w: u32)
    ensures
        count_word(a + b, w) == count_word(a, w) + count_word(b, w),
{
    lemma_count_from_concat(a, b, w, 0);
}

/// The spill frame stays within [`MEM_LIMIT`] across a well-formed tape.
pub proof fn lemma_seq_mem_bound(ops: Seq<AsmOp>, mem: nat, size: nat)
    requires
        tape_wf(ops, size),
        mem <= MEM_LIMIT,
    ensures
        seq_mem(ops, mem, size) <= MEM_LIMIT,
        ops.len() > 0 ==> op_mem(ops[0], mem, size) <= MEM_LIMIT,
    decreases ops.len(),
{
    if ops.len() > 0 {
        assert(op_wf(ops[0], size));
        match ops[0] {
            AsmOp::Load(_, m) => {
                assert(align16(slot_start(m, size)) == slot_bytes(m, size));
            }
            AsmOp::Store(_, m) => {
                assert(align16(slot_start(m, size)) == slot_bytes(m, size));
            }
            _ => {}
        }
        assert(tape_wf(ops.skip(1), size)) by {
            assert forall|i: int| 0 <= i < ops.skip(1).len()
                implies op_wf(#[trigger] ops.skip(1)[i], size) by {
                assert(ops.skip(1)[i] == ops[i + 1]);
            }
        }
        lemma_seq_mem_bound(ops.skip(1), op_mem(ops[0], mem, size), size);
    }
}

/// Emission state shared by every flavor: the machine words emitted so far
/// and the current spill-frame size in bytes.
pub struct AssemblerData {
    /// Emitted instruction words, in order.
    pub code: Vec<u32>,
    /// Current spill-frame size in bytes; grows monotonically and stays a
    /// multiple of 16.
    pub mem_offset: usize,
}

impl AssemblerData {
    /// Frame-size invariant kept across emission.
    pub open spec fn wf(&self) -> bool {
        &&& self.mem_offset % 16 == 0
        &&& self.mem_offset <= MEM_LIMIT
    }

    /// Fresh state: nothing emitted, no spill frame.
    pub fn new() -> (d: AssemblerData)
        ensures
            d.code@ == Seq::<u32>::empty(),
            d.mem_offset == 0,
            d.wf(),
    {
        AssemblerData { code: Vec::new(), mem_offset: 0 }
    }

    /// Appends one instruction word.
    pub fn push(&mut self, w: u32)
        ensures
            final(self).code@ == old(self).code@.push(w),
            final(self).mem_offset == old(self).mem_offset,
    {
        self.code.push(w);
    }

    /// Ensures the spill frame covers slot `mem_slot`, growing it (and
    /// emitting the `sub sp` that grows it at run time) if needed, and
    /// returns the stack-pointer offset at which the slot is addressed.
    pub fn check_stack(&mut self, mem_slot: u32, size: usize) -> (sp_offset: u32)
        requires
            old(self).wf(),
            size == 4 || size == 8 || size == 16,
            slot_ok(mem_slot, size as nat),
        ensures
            final(self).wf(),
            final(self).mem_offset == grow_mem(old(self).mem_offset as nat, mem_slot, size as nat),
            final(self).mem_offset >= old(self).mem_offset,
            final(self).code@ == old(self).code@
                + grow_words(old(self).mem_offset as nat, mem_slot, size as nat),
            sp_offset == slot_offset(old(self).mem_offset as nat, mem_slot, size as nat),
            sp_offset <= MEM_LIMIT,
            sp_offset as nat % (size as nat) == 0,
    {
        proof {
            lemma_align16_ge(slot_start(mem_slot, size as nat));
        }
        let mem: usize = (mem_slot as usize - REGISTER_LIMIT as usize) * size;
        if mem > self.mem_offset {
            // Round up to the nearest multiple of 16 bytes, for alignment.
            let mem_aligned: usize = ((mem + 15) / 16) * 16;
            let addr: usize = mem_aligned - self.mem_offset;
            proof {
                lemma_align16_mult(mem as nat);
            }
            self.code.push(SUB_SP + (addr as u32) * 0x400);
            self.mem_offset = mem_aligned;
            proof {
                assert(self.code@ =~= old(self).code@
                    + grow_words(old(self).mem_offset as nat, mem_slot, size as nat));
            }
        } else {
            proof {
                assert(self.code@ =~= old(self).code@
                    + grow_words(old(self).mem_offset as nat, mem_slot, size as nat));
            }
        }
        let off: usize = self.mem_offset - mem;
        proof {
            lemma_mul_mod(((mem_slot as nat - REGISTER_LIMIT as nat) as nat), size as nat);
            lemma_mod16_mod(self.mem_offset as nat, size as nat);
            lemma_sub_mod(self.mem_offset as nat, mem as nat, size as nat);
        }
        off as u32
    }

    /// Emits the common prologue head.
    pub fn push_prologue(&mut self)
        ensures
            final(self).code@ == old(self).code@ + prologue_head(),
            final(self).mem_offset == old(self).mem_offset,
    {
        self.code.push(STP_X29_X30);
        self.code.push(MOV_X29_SP);
        self.code.push(STP_D8_D9);
        self.code.push(STP_D10_D11);
        self.code.push(STP_D12_D13);
        self.code.push(STP_D14_D15);
        proof {
            assert(self.code@ =~= old(self).code@ + prologue_head());
        }
    }

    /// Reserves the spill frame for `slot_count` slots of `size` bytes each,
    /// emitting the `sub sp` that makes room at run time.
    pub fn prep_slots(&mut self, slot_count: usize, size: usize)
        requires
            old(self).wf(),
            old(self).mem_offset == 0,
            size == 4 || size == 8 || size == 16,
            slot_count * size <= MEM_LIMIT as nat,
        ensures
            final(self).wf(),
            final(self).code@ == old(self).code@
                + init_mem_words(slot_count as nat, size as nat),
            final(self).mem_offset == init_mem(slot_count as nat, size as nat),
    {
        let sz: usize = slot_count * size;
        if sz > 0 {
            let aligned: usize = ((sz + 15) / 16) * 16;
            proof {
                lemma_align16_mult(sz as nat);
                lemma_align16_ge(sz as nat);
            }
            self.code.push(SUB_SP + (aligned as u32) * 0x400);
            self.mem_offset = aligned;
            proof {
                assert(self.code@ =~= old(self).code@
                    + init_mem_words(slot_count as nat, size as nat));
            }
        } else {
            proof {
                assert(self.code@ =~= old(self).code@
                    + init_mem_words(slot_count as nat, size as nat));
            }
        }
    }

    /// Emits the common epilogue tail: unwind the spill frame, restore the
    /// saved registers, return.
    pub fn push_restore(&mut self)
        requires
            old(self).wf(),
        ensures
            final(self).code@ == old(self).code@ + restore_words(old(self).mem_offset as nat),
            final(self).mem_offset == old(self).mem_offset,
    {
        self.code.push(ADD_SP + (self.mem_offset as u32) * 0x400);
        self.code.push(LDP_D14_D15);
        self.code.push(LDP_D12_D13);
        self.code.push(LDP_D10_D11);
        self.code.push(LDP_D8_D9);
        self.code.push(LDP_X29_X30);
        self.code.push(RET);
        proof {
            assert(self.code@ =~= old(self).code@
                + restore_words(old(self).mem_offset as nat));
        }
    }
}

/// Rounding up to 16 never shrinks a value.
proof fn lemma_align16_ge(n: nat)
    ensures
        align16(n) >= n,
        align16(n) < n + 16,
{
    assert((n + 15) / 16 * 16 >= n && (n + 15) / 16 * 16 < n + 16) by (nonlinear_arith);
}

/// Rounding up to 16 yields a multiple of 16.
proof fn lemma_align16_mult(n: nat)
    ensures
        align16(n) % 16 == 0,
{
    assert((n + 15) / 16 * 16 % 16 == 0) by (nonlinear_arith);
}

/// A product is divisible by its factor.
proof fn lemma_mul_mod(a: nat, b: nat)
    requires
        b > 0,
    ensures
        (a * b) % b == 0,
{
    assert((a * b) % b == 0) by (nonlinear_arith)
        requires
            b > 0,
    ;
}

/// A multiple of 16 is a multiple of every divisor of 16.
proof fn lemma_mod16_mod(mem: nat, size: nat)
    requires
        size == 4 || size == 8 || size == 16,
        mem % 16 == 0,
    ensures
        mem % size == 0,
{
    assert(mem % size == 0) by (nonlinear_arith)
        requires
            size == 4 || size == 8 || size == 16,
            mem % 16 == 0,
    ;
}

/// Subtracting one multiple of `size` from another leaves a multiple.
proof fn lemma_sub_mod(mem: nat, start: nat, size: nat)
    requires
        size > 0,
        mem % size == 0,
        start % size == 0,
        mem >= start,
    ensures
        (mem - start) % (size as int) == 0,
{
    let d = size as int;
    let q = mem as int / d - start as int / d;
    vstd::arithmetic::div_mod::lemma_fundamental_div_mod(mem as int, d);
    vstd::arithmetic::div_mod::lemma_fundamental_div_mod(start as int, d);
    assert(mem as int - start as int == q * d) by (nonlinear_arith)
        requires
            d > 0,
            mem as int == d * (mem as int / d) + (mem as int % d),
            start as int == d * (start as int / d) + (start as int % d),
            mem as int % d == 0,
            start as int % d == 0,
            q == mem as int / d - start as int / d,
    ;
    vstd::arithmetic::div_mod::lemma_mod_multiples_basic(q, d);
}

/// The capability set a flavor supplies to the driver: one builder per
/// virtual operation, an immediate load, and specifications describing the
/// words each builder appends.
pub trait AssemblerT: Sized {
    /// Words emitted so far.
    spec fn words(&self) -> Seq<u32>;

    /// Current spill-frame size in bytes.
    spec fn mem(&self) -> nat;

    /// Emission invariant.
    spec fn inv(&self) -> bool;

    /// Spill-slot element size in bytes: 4 scalar, 8 interval, 16 batch.
    spec fn elem_size() -> nat;

    /// Words of the function prologue, including the up-front spill frame
    /// for `slots` slots.
    spec fn prologue(slots: nat) -> Seq<u32>;

    /// Words lowering one virtual instruction when the spill frame currently
    /// holds `mem` bytes.
    spec fn op_words(op: AsmOp, mem: nat) -> Seq<u32>;

    /// Words loading an immediate into the reserved immediate register.
    spec fn imm_words(imm: u32) -> Seq<u32>;

    /// Words of the function epilogue: move `out` into the return slot,
    /// unwind a `mem`-byte spill frame, restore saved registers, return.
    spec fn epilogue(out: u8, mem: nat) -> Seq<u32>;

    /// An instruction with an immediate operand lowers to the immediate load
    /// followed by the register-register form reading the immediate
    /// register (with the operands flipped for `SubImmReg`).
    proof fn lemma_imm_ops(out: u8, a: u8, imm: u32, mem: nat)
        ensures
            Self::op_words(AsmOp::AddRegImm(out, a, imm), mem)
                == Self::imm_words(imm) + Self::op_words(AsmOp::AddRegReg(out, a, IMM_VREG), mem),
            Self::op_words(AsmOp::MulRegImm(out, a, imm), mem)
                == Self::imm_words(imm) + Self::op_words(AsmOp::MulRegReg(out, a, IMM_VREG), mem),
            Self::op_words(AsmOp::SubRegImm(out, a, imm), mem)
                == Self::imm_words(imm) + Self::op_words(AsmOp::SubRegReg(out, a, IMM_VREG), mem),
            Self::op_words(AsmOp::SubImmReg(out, a, imm), mem)
                == Self::imm_words(imm) + Self::op_words(AsmOp::SubRegReg(out, IMM_VREG, a), mem),
            Self::op_words(AsmOp::MinRegImm(out, a, imm), mem)
                == Self::imm_words(imm) + Self::op_words(AsmOp::MinRegReg(out, a, IMM_VREG), mem),
            Self::op_words(AsmOp::MaxRegImm(out, a, imm), mem)
                == Self::imm_words(imm) + Self::op_words(AsmOp::MaxRegReg(out, a, IMM_VREG), mem),
            Self::op_words(AsmOp::CopyImm(out, imm), mem)
                == Self::imm_words(imm) + Self::op_words(AsmOp::CopyReg(out, IMM_VREG), mem),
    ;

    /// Emits the prologue and reserves `slot_count` spill slots.
    fn init(slot_count: usize) -> (s: Self)
        requires
            slot_count * Self::elem_size() <= MEM_LIMIT as nat,
        ensures
            s.inv(),
            s.words() == Self::prologue(slot_count as nat),
            s.mem() == init_mem(slot_count as nat, Self::elem_size()),
    ;

    /// Reads spill slot `src_mem` into `dst_reg`.
    fn build_load(&mut self, dst_reg: u8, src_mem: u32)
        requires
            old(self).inv(),
            dst_reg < REGISTER_LIMIT,
            slot_ok(src_mem, Self::elem_size()),
        ensures
            final(self).inv(),
            final(self).words() == old(self).words()
                + Self::op_words(AsmOp::Load(dst_reg, src_mem), old(self).mem()),
            final(self).mem() == op_mem(
                AsmOp::Load(dst_reg, src_mem),
                old(self).mem(),
                Self::elem_size(),
            ),
    ;

    /// Writes `src_reg` to spill slot `dst_mem`.
    fn build_store(&mut self, dst_mem: u32, src_reg: u8)
        requires
            old(self).inv(),
            src_reg < REGISTER_LIMIT,
            slot_ok(dst_mem, Self::elem_size()),
        ensures
            final(self).inv(),
            final(self).words() == old(self).words()
                + Self::op_words(AsmOp::Store(src_reg, dst_mem), old(self).mem()),
            final(self).mem() == op_mem(
                AsmOp::Store(src_reg, dst_mem),
                old(self).mem(),
                Self::elem_size(),
            ),
    ;

    /// Copies input argument `src_arg` (x, y or z) to `out_reg`.
    fn build_input(&mut self, out_reg: u8, src_arg: u8)
        requires
            old(self).inv(),
            out_reg < REGISTER_LIMIT,
            src_arg < 3,
        ensures
            final(self).inv(),
            final(self).words() == old(self).words()
                + Self::op_words(AsmOp::Input(out_reg, src_arg), old(self).mem()),
            final(self).mem() == old(self).mem(),
    ;

    /// Copies a register.
    fn build_copy(&mut self, out_reg: u8, lhs_reg: u8)
        requires
            old(self).inv(),
            out_reg < REGISTER_LIMIT,
            valid_vreg(lhs_reg),
        ensures
            final(self).inv(),
            final(self).words() == old(self).words()
                + Self::op_words(AsmOp::CopyReg(out_reg, lhs_reg), old(self).mem()),
            final(self).mem() == old(self).mem(),
    ;

    /// Negation.
    fn build_neg(&mut self, out_reg: u8, lhs_reg: u8)
        requires
            old(self).inv(),
            out_reg < REGISTER_LIMIT,
            valid_vreg(lhs_reg),
        ensures
            final(self).inv(),
            final(self).words() == old(self).words()
                + Self::op_words(AsmOp::NegReg(out_reg, lhs_reg), old(self).mem()),
            final(self).mem() == old(self).mem(),
    ;

    /// Absolute value.
    fn build_abs(&mut self, out_reg: u8, lhs_reg: u8)
        requires
            old(self).inv(),
            out_reg < REGISTER_LIMIT,
            valid_vreg(lhs_reg),
        ensures
            final(self).inv(),
            final(self).words() == old(self).words()
                + Self::op_words(AsmOp::AbsReg(out_reg, lhs_reg), old(self).mem()),
            final(self).mem() == old(self).mem(),
    ;

    /// Reciprocal.
    fn build_recip(&mut self, out_reg: u8, lhs_reg: u8)
        requires
            old(self).inv(),
            out_reg < REGISTER_LIMIT,
            valid_vreg(lhs_reg),
        ensures
            final(self).inv(),
            final(self).words() == old(self).words()
                + Self::op_words(AsmOp::RecipReg(out_reg, lhs_reg), old(self).mem()),
            final(self).mem() == old(self).mem(),
    ;

    /// Square root.
    fn build_sqrt(&mut self, out_reg: u8, lhs_reg: u8)
        requires
            old(self).inv(),
            out_reg < REGISTER_LIMIT,
            valid_vreg(lhs_reg),
        ensures
            final(self).inv(),
            final(self).words() == old(self).words()
                + Self::op_words(AsmOp::SqrtReg(out_reg, lhs_reg), old(self).mem()),
            final(self).mem() == old(self).mem(),
    ;

    /// A value multiplied by itself.
    fn build_square(&mut self, out_reg: u8, lhs_reg: u8)
        requires
            old(self).inv(),
            out_reg < REGISTER_LIMIT,
            valid_vreg(lhs_reg),
        ensures
            final(self).inv(),
            final(self).words() == old(self).words()
                + Self::op_words(AsmOp::SquareReg(out_reg, lhs_reg), old(self).mem()),
            final(self).mem() == old(self).mem(),
    ;

    /// Sum.
    fn build_add(&mut self, out_reg: u8, lhs_reg: u8, rhs_reg: u8)
        requires
            old(self).inv(),
            out_reg < REGISTER_LIMIT,
            valid_vreg(lhs_reg),
            valid_vreg(rhs_reg),
        ensures
            final(self).inv(),
            final(self).words() == old(self).words()
                + Self::op_words(AsmOp::AddRegReg(out_reg, lhs_reg, rhs_reg), old(self).mem()),
            final(self).mem() == old(self).mem(),
    ;

    /// Difference.
    fn build_sub(&mut self, out_reg: u8, lhs_reg: u8, rhs_reg: u8)
        requires
            old(self).inv(),
            out_reg < REGISTER_LIMIT,
            valid_vreg(lhs_reg),
            valid_vreg(rhs_reg),
        ensures
            final(self).inv(),
            final(self).words() == old(self).words()
                + Self::op_words(AsmOp::SubRegReg(out_reg, lhs_reg, rhs_reg), old(self).mem()),
            final(self).mem() == old(self).mem(),
    ;

    /// Product.
    fn build_mul(&mut self, out_reg: u8, lhs_reg: u8, rhs_reg: u8)
        requires
            old(self).inv(),
            out_reg < REGISTER_LIMIT,
            valid_vreg(lhs_reg),
            valid_vreg(rhs_reg),
        ensures
            final(self).inv(),
            final(self).words() == old(self).words()
                + Self::op_words(AsmOp::MulRegReg(out_reg, lhs_reg, rhs_reg), old(self).mem()),
            final(self).mem() == old(self).mem(),
    ;

    /// Maximum; the tracing flavors record a choice byte.
    fn build_max(&mut self, out_reg: u8, lhs_reg: u8, rhs_reg: u8)
        requires
            old(self).inv(),
            out_reg < REGISTER_LIMIT,
            valid_vreg(lhs_reg),
            valid_vreg(rhs_reg),
        ensures
            final(self).inv(),
            final(self).words() == old(self).words()
                + Self::op_words(AsmOp::MaxRegReg(out_reg, lhs_reg, rhs_reg), old(self).mem()),
            final(self).mem() == old(self).mem(),
    ;

    /// Minimum; the tracing flavors record a choice byte.
    fn build_min(&mut self, out_reg: u8, lhs_reg: u8, rhs_reg: u8)
        requires
            old(self).inv(),
            out_reg < REGISTER_LIMIT,
            valid_vreg(lhs_reg),
            valid_vreg(rhs_reg),
        ensures
            final(self).inv(),
            final(self).words() == old(self).words()
                + Self::op_words(AsmOp::MinRegReg(out_reg, lhs_reg, rhs_reg), old(self).mem()),
            final(self).mem() == old(self).mem(),
    ;

    /// Loads an immediate (given as its bit pattern) into the reserved
    /// immediate register, returning that register's virtual index.
    fn load_imm(&mut self, imm: u32) -> (r: u8)
        requires
            old(self).inv(),
        ensures
            final(self).inv(),
            r == IMM_VREG,
            final(self).words() == old(self).words() + Self::imm_words(imm),
            final(self).mem() == old(self).mem(),
    ;

    /// Emits the epilogue, consuming the assembler: the compiled function
    /// returns the value of `out_reg`.
    fn finalize(self, out_reg: u8) -> (code: Vec<u32>)
        requires
            self.inv(),
            out_reg < REGISTER_LIMIT,
        ensures
            code@ == self.words() + Self::epilogue(out_reg, self.mem()),
    ;
}

/// Flavor `A`'s per-instruction lowering as a function value, for use in
/// [`tape_words`].
pub open spec fn op_words_fn<A: AssemblerT>() -> spec_fn(AsmOp, nat) -> Seq<u32> {
    |op: AsmOp, mem: nat| A::op_words(op, mem)
}

/// The complete instruction stream lowering `ops` with flavor `A`:
/// prologue, per-instruction words, epilogue returning virtual register 0.
pub open spec fn compiled<A: AssemblerT>(ops: Seq<AsmOp>, slots: nat) -> Seq<u32> {
    let mem0 = init_mem(slots, A::elem_size());
    A::prologue(slots)
        + tape_words(ops, mem0, op_words_fn::<A>(), A::elem_size())
        + A::epilogue(0, seq_mem(ops, mem0, A::elem_size()))
}

/// Streams a tape through flavor `A`: prologue, one lowering per
/// instruction (with immediate operands expanded through the reserved
/// immediate register), then the epilogue returning virtual register 0.
#[verifier::rlimit(50)]
pub fn build_asm_fn<A: AssemblerT>(t: &Tape, slot_count: usize) -> (code: Vec<u32>)
    requires
        tape_wf(t.ops@, A::elem_size()),
        slot_count * A::elem_size() <= MEM_LIMIT as nat,
    ensures
        code@ == compiled::<A>(t.ops@, slot_count as nat),
{
    let ghost size = A::elem_size();
    let ghost mem0 = init_mem(slot_count as nat, size);
    let ghost f = op_words_fn::<A>();
    let mut emit = A::init(slot_count);
    let mut i: usize = 0;
    proof {
        assert(t.ops@.take(0) =~= Seq::<AsmOp>::empty());
    }
    while i < t.ops.len()
        invariant
            tape_wf(t.ops@, size),
            size == A::elem_size(),
            mem0 == init_mem(slot_count as nat, size),
            f == op_words_fn::<A>(),
            i <= t.ops@.len(),
            emit.inv(),
            emit.words() == A::prologue(slot_count as nat)
                + tape_words(t.ops@.take(i as int), mem0, f, size),
            emit.mem() == seq_mem(t.ops@.take(i as int), mem0, size),
        decreases t.ops@.len() - i,
    {
        let op = t.ops[i];
        let ghost pre = emit.words();
        let ghost memi = emit.mem();
        proof {
            assert(op_wf(t.ops@[i as int], size));
        }
        match op {
            AsmOp::Load(reg, mem) => {
                emit.build_load(reg, mem);
            }
            AsmOp::Store(reg, mem) => {
                emit.build_store(mem, reg);
            }
            AsmOp::Input(out, j) => {
                emit.build_input(out, j);
            }
            AsmOp::CopyReg(out, arg) => {
                emit.build_copy(out, arg);
            }
            AsmOp::NegReg(out, arg) => {
                emit.build_neg(out, arg);
            }
            AsmOp::AbsReg(out, arg) => {
                emit.build_abs(out, arg);
            }
            AsmOp::RecipReg(out, arg) => {
                emit.build_recip(out, arg);
            }
            AsmOp::SqrtReg(out, arg) => {
                emit.build_sqrt(out, arg);
            }
            AsmOp::SquareReg(out, arg) => {
                emit.build_square(out, arg);
            }
            AsmOp::AddRegReg(out, lhs, rhs) => {
                emit.build_add(out, lhs, rhs);
            }
            AsmOp::MulRegReg(out, lhs, rhs) => {
                emit.build_mul(out, lhs, rhs);
            }
            AsmOp::SubRegReg(out, lhs, rhs) => {
                emit.build_sub(out, lhs, rhs);
            }
            AsmOp::MinRegReg(out, lhs, rhs) => {
                emit.build_min(out, lhs, rhs);
            }
            AsmOp::MaxRegReg(out, lhs, rhs) => {
                emit.build_max(out, lhs, rhs);
            }
            AsmOp::AddRegImm(out, arg, imm) => {
                let r = emit.load_imm(imm);
                emit.build_add(out, arg, r);
                proof {
                    A::lemma_imm_ops(out, arg, imm, memi);
                    assert(emit.words() =~= pre + f(op, memi));
                }
            }
            AsmOp::MulRegImm(out, arg, imm) => {
                let r = emit.load_imm(imm);
                emit.build_mul(out, arg, r);
                proof {
                    A::lemma_imm_ops(out, arg, imm, memi);
                    assert(emit.words() =~= pre + f(op, memi));
                }
            }
            AsmOp::SubImmReg(out, arg, imm) => {
                let r = emit.load_imm(imm);
                emit.build_sub(out, r, arg);
                proof {
                    A::lemma_imm_ops(out, arg, imm, memi);
                    assert(emit.words() =~= pre + f(op, memi));
                }
            }
            AsmOp::SubRegImm(out, arg, imm) => {
                let r = emit.load_imm(imm);
                emit.build_sub(out, arg, r);
                proof {
                    A::lemma_imm_ops(out, arg, imm, memi);
                    assert(emit.words() =~= pre + f(op, memi));
                }
            }
            AsmOp::MinRegImm(out, arg, imm) => {
                let r = emit.load_imm(imm);
                emit.build_min(out, arg, r);
                proof {
                    A::lemma_imm_ops(out, arg, imm, memi);
                    assert(emit.words() =~= pre + f(op, memi));
                }
            }
            AsmOp::MaxRegImm(out, arg, imm) => {
                let r = emit.load_imm(imm);
                emit.build_max(out, arg, r);
                proof {
                    A::lemma_imm_ops(out, arg, imm, memi);
                    assert(emit.words() =~= pre + f(op, memi));
                }
            }
            AsmOp::CopyImm(out, imm) => {
                let r = emit.load_imm(imm);
                emit.build_copy(out, r);
                proof {
                    A::lemma_imm_ops(out, 0, imm, memi);
                    assert(emit.words() =~= pre + f(op, memi));
                }
            }
        }
        proof {
            lemma_tape_words_step(t.ops@, i as int, mem0, f, size);
            assert(emit.words() =~= A::prologue(slot_count as nat)
                + tape_words(t.ops@.take(i as int + 1), mem0, f, size));
        }
        i = i + 1;
    }
    proof {
        assert(t.ops@.take(t.ops@.len() as int) =~= t.ops@);
    }
    emit.finalize(0)
}

} // verus!
