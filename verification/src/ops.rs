//! The virtual ISA: instructions of a planned tape.
//!
//! A tape is a finite ordered sequence of [`AsmOp`] values addressing a
//! virtual register file of [`crate::REGISTER_LIMIT`] registers plus a spill
//! area.  Register operands are indices below [`crate::REGISTER_LIMIT`];
//! memory operands are slot indices at or above it.  Immediate operands carry
//! the IEEE-754 bit pattern of the 32-bit float to load.

use vstd::prelude::*;
use crate::REGISTER_LIMIT;

verus! {

/// Largest spill frame, in bytes, that a compiled function may use.
///
/// Every stack adjustment and every spill offset the assemblers emit must fit
/// the immediate field of its instruction; a frame of at most this size (a
/// multiple of 16, below 4096) keeps all of them in range for every flavor.
pub const MEM_LIMIT: usize = 4080;

/// One instruction of the virtual ISA.
///
/// The first operand is always the output: a virtual register, except for
/// `Store`, where it is the source register and the second operand is the
/// destination slot.  `*Imm` variants carry the bit pattern of an `f32`.
#[derive(Copy, Clone, Debug, PartialEq, Eq, Structural)]
pub enum AsmOp {
    /// Read a spill slot into a register.
    Load(u8, u32),
    /// Write a register to a spill slot.
    Store(u8, u32),
    /// Copy input argument (0 = x, 1 = y, 2 = z) into a register.
    Input(u8, u8),
    /// Copy a register.
    CopyReg(u8, u8),
    /// Negate.
    NegReg(u8, u8),
    /// Absolute value.
    AbsReg(u8, u8),
    /// Reciprocal.
    RecipReg(u8, u8),
    /// Square root.
    SqrtReg(u8, u8),
    /// Multiply a value by itself.
    SquareReg(u8, u8),
    /// Sum of two registers.
    AddRegReg(u8, u8, u8),
    /// Product of two registers.
    MulRegReg(u8, u8, u8),
    /// Difference of two registers.
    SubRegReg(u8, u8, u8),
    /// Minimum of two registers; emits a choice byte in the tracing flavors.
    MinRegReg(u8, u8, u8),
    /// Maximum of two registers; emits a choice byte in the tracing flavors.
    MaxRegReg(u8, u8, u8),
    /// Register plus immediate.
    AddRegImm(u8, u8, u32),
    /// Register times immediate.
    MulRegImm(u8, u8, u32),
    /// Immediate minus register.
    SubImmReg(u8, u8, u32),
    /// Register minus immediate.
    SubRegImm(u8, u8, u32),
    /// Minimum of a register and an immediate.
    MinRegImm(u8, u8, u32),
    /// Maximum of a register and an immediate.
    MaxRegImm(u8, u8, u32),
    /// Load an immediate.
    CopyImm(u8, u32),
}

/// Whether `op` records a choice byte (a `min`/`max` node).
pub open spec fn is_choice_op(op: AsmOp) -> bool {
    match op {
        AsmOp::MinRegReg(_, _, _) => true,
        AsmOp::MaxRegReg(_, _, _) => true,
        AsmOp::MinRegImm(_, _, _) => true,
        AsmOp::MaxRegImm(_, _, _) => true,
        _ => false,
    }
}

/// Number of `min`/`max` nodes in `ops`: one choice byte exists per node.
pub open spec fn num_choices(ops: Seq<AsmOp>) -> nat
    decreases ops.len(),
{
    if ops.len() == 0 {
        0
    } else {
        (if is_choice_op(ops[0]) { 1nat } else { 0nat }) + num_choices(ops.skip(1))
    }
}

/// Bytes of spill area needed once slot `m` has been touched, rounded up to
/// the 16-byte alignment the stack keeps: slot `m` of an element size `size`
/// starts `(m - REGISTER_LIMIT) * size` bytes below the top of the spill
/// area and extends `size` bytes further down.
pub open spec fn slot_bytes(m: u32, size: nat) -> nat {
    ((((m as nat - REGISTER_LIMIT as nat) * size + 15) / 16) * 16) as nat
}

/// Whether memory slot `m` is usable under element size `size`: at or above
/// the register limit, and close enough that the spill frame stays within
/// [`MEM_LIMIT`].
pub open spec fn slot_ok(m: u32, size: nat) -> bool {
    &&& m as nat >= REGISTER_LIMIT as nat
    &&& slot_bytes(m, size) <= MEM_LIMIT as nat
}

/// Well-formedness of one instruction under element size `size`: every
/// register operand is below [`REGISTER_LIMIT`], every input index is one of
/// the three axes, and every memory slot is usable.
pub open spec fn op_wf(op: AsmOp, size: nat) -> bool {
    match op {
        AsmOp::Load(reg, mem) => reg < REGISTER_LIMIT && slot_ok(mem, size),
        AsmOp::Store(reg, mem) => reg < REGISTER_LIMIT && slot_ok(mem, size),
        AsmOp::Input(out, arg) => out < REGISTER_LIMIT && arg < 3,
        AsmOp::CopyReg(out, a) => out < REGISTER_LIMIT && a < REGISTER_LIMIT,
        AsmOp::NegReg(out, a) => out < REGISTER_LIMIT && a < REGISTER_LIMIT,
        AsmOp::AbsReg(out, a) => out < REGISTER_LIMIT && a < REGISTER_LIMIT,
        AsmOp::RecipReg(out, a) => out < REGISTER_LIMIT && a < REGISTER_LIMIT,
        AsmOp::SqrtReg(out, a) => out < REGISTER_LIMIT && a < REGISTER_LIMIT,
        AsmOp::SquareReg(out, a) => out < REGISTER_LIMIT && a < REGISTER_LIMIT,
        AsmOp::AddRegReg(out, a, b) => out < REGISTER_LIMIT && a < REGISTER_LIMIT && b < REGISTER_LIMIT,
        AsmOp::MulRegReg(out, a, b) => out < REGISTER_LIMIT && a < REGISTER_LIMIT && b < REGISTER_LIMIT,
        AsmOp::SubRegReg(out, a, b) => out < REGISTER_LIMIT && a < REGISTER_LIMIT && b < REGISTER_LIMIT,
        AsmOp::MinRegReg(out, a, b) => out < REGISTER_LIMIT && a < REGISTER_LIMIT && b < REGISTER_LIMIT,
        AsmOp::MaxRegReg(out, a, b) => out < REGISTER_LIMIT && a < REGISTER_LIMIT && b < REGISTER_LIMIT,
        AsmOp::AddRegImm(out, a, _) => out < REGISTER_LIMIT && a < REGISTER_LIMIT,
        AsmOp::MulRegImm(out, a, _) => out < REGISTER_LIMIT && a < REGISTER_LIMIT,
        AsmOp::SubImmReg(out, a, _) => out < REGISTER_LIMIT && a < REGISTER_LIMIT,
        AsmOp::SubRegImm(out, a, _) => out < REGISTER_LIMIT && a < REGISTER_LIMIT,
        AsmOp::MinRegImm(out, a, _) => out < REGISTER_LIMIT && a < REGISTER_LIMIT,
        AsmOp::MaxRegImm(out, a, _) => out < REGISTER_LIMIT && a < REGISTER_LIMIT,
        AsmOp::CopyImm(out, _) => out < REGISTER_LIMIT,
    }
}

/// Well-formedness of a whole instruction sequence under element size `size`.
pub open spec fn tape_wf(ops: Seq<AsmOp>, size: nat) -> bool {
    forall|i: int| 0 <= i < ops.len() ==> op_wf(#[trigger] ops[i], size)
}

/// A planned tape: a finite ordered sequence of virtual instructions.
///
/// Construction of tapes (planning, register allocation, simplification) is
/// the business of an outside collaborator; this crate only consumes them.
pub struct Tape {
    /// The instructions, in evaluation order.
    pub ops: Vec<AsmOp>,
}

impl Tape {
    /// An empty tape.
    pub fn new() -> (t: Tape)
        ensures
            t.ops@ == Seq::<AsmOp>::empty(),
    {
        Tape { ops: Vec::new() }
    }

    /// Appends one instruction.
    pub fn push(&mut self, op: AsmOp)
        ensures
            final(self).ops@ == old(self).ops@.push(op),
    {
        self.ops.push(op);
    }

    /// Number of `min`/`max` nodes: the compiled interval code writes exactly
    /// one choice byte per such node, so this is the size of the choice
    /// buffer an interval evaluation needs.
    pub fn choice_count(&self) -> (n: usize)
        ensures
            n == num_choices(self.ops@),
    {
        let mut n: usize = 0;
        let mut i: usize = 0;
        proof {
            assert(self.ops@.take(0) =~= Seq::<AsmOp>::empty());
        }
        while i < self.ops.len()
            invariant
                i <= self.ops@.len(),
                n == num_choices(self.ops@.take(i as int)),
                n <= i,
            decreases self.ops@.len() - i,
        {
            let choice = match self.ops[i] {
                AsmOp::MinRegReg(_, _, _) => true,
                AsmOp::MaxRegReg(_, _, _) => true,
                AsmOp::MinRegImm(_, _, _) => true,
                AsmOp::MaxRegImm(_, _, _) => true,
                _ => false,
            };
            proof {
                lemma_num_choices_take_step(self.ops@, i as int);
            }
            if choice {
                n = n + 1;
            }
            i = i + 1;
        }
        proof {
            assert(self.ops@.take(self.ops@.len() as int) =~= self.ops@);
        }
        n
    }

    /// Whether every instruction is well formed under element size `size`
    /// (4 for the scalar flavors, 8 for intervals, 16 for the 4-lane SIMD
    /// flavor).  The assemblers require this; callers that receive a tape
    /// from outside can test it here first.
    pub fn check(&self, size: usize) -> (ok: bool)
        requires
            1 <= size <= 16,
        ensures
            ok == tape_wf(self.ops@, size as nat),
    {
        let mut i: usize = 0;
        while i < self.ops.len()
            invariant
                1 <= size <= 16,
                i <= self.ops@.len(),
                forall|j: int| 0 <= j < i ==> op_wf(#[trigger] self.ops@[j], size as nat),
            decreases self.ops@.len() - i,
        {
            if !check_op(self.ops[i], size) {
                return false;
            }
            i = i + 1;
        }
        true
    }
}

/// Exec check of [`op_wf`] for one instruction.
fn check_op(op: AsmOp, size: usize) -> (ok: bool)
    requires
        1 <= size <= 16,
    ensures
        ok == op_wf(op, size as nat),
{
    match op {
        AsmOp::Load(reg, mem) => reg < REGISTER_LIMIT && check_slot(mem, size),
        AsmOp::Store(reg, mem) => reg < REGISTER_LIMIT && check_slot(mem, size),
        AsmOp::Input(out, arg) => out < REGISTER_LIMIT && arg < 3,
        AsmOp::CopyReg(out, a) => out < REGISTER_LIMIT && a < REGISTER_LIMIT,
        AsmOp::NegReg(out, a) => out < REGISTER_LIMIT && a < REGISTER_LIMIT,
        AsmOp::AbsReg(out, a) => out < REGISTER_LIMIT && a < REGISTER_LIMIT,
        AsmOp::RecipReg(out, a) => out < REGISTER_LIMIT && a < REGISTER_LIMIT,
        AsmOp::SqrtReg(out, a) => out < REGISTER_LIMIT && a < REGISTER_LIMIT,
        AsmOp::SquareReg(out, a) => out < REGISTER_LIMIT && a < REGISTER_LIMIT,
        AsmOp::AddRegReg(out, a, b) => out < REGISTER_LIMIT && a < REGISTER_LIMIT && b < REGISTER_LIMIT,
        AsmOp::MulRegReg(out, a, b) => out < REGISTER_LIMIT && a < REGISTER_LIMIT && b < REGISTER_LIMIT,
        AsmOp::SubRegReg(out, a, b) => out < REGISTER_LIMIT && a < REGISTER_LIMIT && b < REGISTER_LIMIT,
        AsmOp::MinRegReg(out, a, b) => out < REGISTER_LIMIT && a < REGISTER_LIMIT && b < REGISTER_LIMIT,
        AsmOp::MaxRegReg(out, a, b) => out < REGISTER_LIMIT && a < REGISTER_LIMIT && b < REGISTER_LIMIT,
        AsmOp::AddRegImm(out, a, _) => out < REGISTER_LIMIT && a < REGISTER_LIMIT,
        AsmOp::MulRegImm(out, a, _) => out < REGISTER_LIMIT && a < REGISTER_LIMIT,
        AsmOp::SubImmReg(out, a, _) => out < REGISTER_LIMIT && a < REGISTER_LIMIT,
        AsmOp::SubRegImm(out, a, _) => out < REGISTER_LIMIT && a < REGISTER_LIMIT,
        AsmOp::MinRegImm(out, a, _) => out < REGISTER_LIMIT && a < REGISTER_LIMIT,
        AsmOp::MaxRegImm(out, a, _) => out < REGISTER_LIMIT && a < REGISTER_LIMIT,
        AsmOp::CopyImm(out, _) => out < REGISTER_LIMIT,
    }
}

/// Exec check of [`slot_ok`].
fn check_slot(m: u32, size: usize) -> (ok: bool)
    requires
        1 <= size <= 16,
    ensures
        ok == slot_ok(m, size as nat),
{
    if m < REGISTER_LIMIT as u32 {
        return false;
    }
    let md: u64 = m as u64 - REGISTER_LIMIT as u64;
    assert(md * (size as u64) <= 0xF_FFFF_FFF0) by (nonlinear_arith)
        requires
            md <= 0xFFFF_FFFF,
            size <= 16,
    ;
    let start: u64 = md * (size as u64);
    ((start + 15) / 16) * 16 <= MEM_LIMIT as u64
}

/// Counting `min`/`max` nodes in a prefix extends one instruction at a time.
pub proof fn lemma_num_choices_take_step(ops: Seq<AsmOp>, i: int)
    requires
        0 <= i < ops.len(),
    ensures
        num_choices(ops.take(i + 1)) == num_choices(ops.take(i))
            + (if is_choice_op(ops[i]) { 1nat } else { 0nat }),
    decreases i,
{
    let a = ops.take(i + 1);
    let b = ops.take(i);
    if i == 0 {
        assert(a.skip(1) =~= Seq::<AsmOp>::empty());
        assert(b =~= Seq::<AsmOp>::empty());
    } else {
        lemma_num_choices_take_step(ops.skip(1), i - 1);
        assert(a.skip(1) =~= ops.skip(1).take(i));
        assert(b.skip(1) =~= ops.skip(1).take(i - 1));
        assert(num_choices(b) == (if is_choice_op(b[0]) { 1nat } else { 0nat })
            + num_choices(ops.skip(1).take(i - 1)));
        assert(a[0] == ops[0] && b[0] == ops[0]);
        assert(a[i] == ops[i]);
    }
}

} // verus!
