//! Choices: the trace the interval flavor's compiled code leaves behind.
//!
//! Each `min`/`max` node of a tape owns one byte in the choice buffer.  The
//! compiled code ORs per-call bits into that byte and advances its pointer,
//! so after a call every byte is `0` (node untouched), `1` (left operand
//! live), `2` (right operand live) or `3` (both live); anything else means
//! the buffer was corrupted.  A downstream simplifier consumes the decoded
//! vector to prune the tape for a subregion.

use vstd::prelude::*;

verus! {

/// Wire value a `min`/`max` ORs in when its left operand is live.
pub const CHOICE_LEFT: u8 = 1;

/// Wire value for a live right operand.
pub const CHOICE_RIGHT: u8 = 2;

/// Wire value when both operands are live.
pub const CHOICE_BOTH: u8 = 3;

/// Which side(s) of a `min`/`max` node were live during an evaluation.
#[derive(Copy, Clone, Debug, PartialEq, Eq, Structural)]
pub enum Choice {
    /// The node was never reached.
    Unknown,
    /// Only the left operand mattered.
    Left,
    /// Only the right operand mattered.
    Right,
    /// Both operands were live.
    Both,
}

/// The choice a wire byte in `0..=3` stands for.
pub open spec fn choice_of_byte(b: u8) -> Choice {
    if b == 0 {
        Choice::Unknown
    } else if b == 1 {
        Choice::Left
    } else if b == 2 {
        Choice::Right
    } else {
        Choice::Both
    }
}

/// The wire byte of a choice.
pub open spec fn byte_of_choice(c: Choice) -> u8 {
    match c {
        Choice::Unknown => 0,
        Choice::Left => 1,
        Choice::Right => 2,
        Choice::Both => 3,
    }
}

/// Decoding inverts encoding: every choice survives a round trip through its
/// wire byte.
pub proof fn lemma_choice_round_trip(c: Choice)
    ensures
        choice_of_byte(byte_of_choice(c)) == c,
{
}

/// Decodes one wire byte; bytes above 3 are a defect and decode to `None`.
pub fn choice_from_byte(b: u8) -> (r: Option<Choice>)
    ensures
        b <= 3 ==> r == Some(choice_of_byte(b)),
        b > 3 ==> r is None,
{
    if b == 0 {
        Some(Choice::Unknown)
    } else if b == 1 {
        Some(Choice::Left)
    } else if b == 2 {
        Some(Choice::Right)
    } else if b == 3 {
        Some(Choice::Both)
    } else {
        None
    }
}

/// The choice state an interval evaluator owns: the raw byte buffer the
/// compiled code writes through, and the decoded vector.
///
/// Both always have exactly one entry per `min`/`max` node of the tape the
/// evaluator was compiled from.
pub struct ChoiceTrace {
    /// Raw bytes, written by the compiled function during a call.
    pub raw: Vec<u8>,
    /// Decoded choices, refreshed from `raw` by [`ChoiceTrace::load_choices`].
    pub choices: Vec<Choice>,
}

impl ChoiceTrace {
    /// Both views cover the same nodes.
    pub open spec fn wf(&self) -> bool {
        self.raw@.len() == self.choices@.len()
    }

    /// Whether every raw byte is a valid wire value.
    pub open spec fn raw_valid(&self) -> bool {
        forall|i: int| 0 <= i < self.raw@.len() ==> self.raw@[i] <= 3
    }

    /// A trace for a tape with `count` `min`/`max` nodes: all bytes zero, all
    /// choices `Both` (the state before any evaluation, as a fresh evaluator
    /// assumes every node live).
    pub fn new(count: usize) -> (t: ChoiceTrace)
        ensures
            t.wf(),
            t.raw@.len() == count,
            t.raw@ == Seq::new(count as nat, |i: int| 0u8),
            t.choices@ == Seq::new(count as nat, |i: int| Choice::Both),
    {
        let mut raw: Vec<u8> = Vec::new();
        let mut choices: Vec<Choice> = Vec::new();
        let mut i: usize = 0;
        while i < count
            invariant
                i <= count,
                raw@ =~= Seq::new(i as nat, |j: int| 0u8),
                choices@ =~= Seq::new(i as nat, |j: int| Choice::Both),
            decreases count - i,
        {
            raw.push(0);
            choices.push(Choice::Both);
            proof {
                assert(raw@ =~= Seq::new((i + 1) as nat, |j: int| 0u8));
                assert(choices@ =~= Seq::new((i + 1) as nat, |j: int| Choice::Both));
            }
            i = i + 1;
        }
        ChoiceTrace { raw, choices }
    }

    /// Rewinds the raw buffer before an evaluation: every byte becomes zero.
    /// Re-running the compiled function on the same inputs after this
    /// reproduces the same bytes, because the function only ORs into what it
    /// finds.
    pub fn reset_choices(&mut self)
        ensures
            final(self).raw@ == Seq::new(old(self).raw@.len(), |i: int| 0u8),
            final(self).choices == old(self).choices,
            final(self).wf() == old(self).wf(),
    {
        let n = self.raw.len();
        let mut i: usize = 0;
        while i < n
            invariant
                i <= n,
                self.raw@.len() == n,
                self.choices == old(self).choices,
                forall|j: int| 0 <= j < i ==> self.raw@[j] == 0,
                forall|j: int| i <= j < n ==> self.raw@[j] == old(self).raw@[j],
            decreases n - i,
        {
            self.raw.set(i, 0);
            i = i + 1;
        }
        proof {
            assert(self.raw@ =~= Seq::new(old(self).raw@.len(), |i: int| 0u8));
        }
    }

    /// Decodes the raw bytes written by the last evaluation into the choice
    /// vector.  A byte above 3 is a defect in the caller's use of the
    /// buffer, so the raw bytes are required valid; [`ChoiceTrace::check_raw`]
    /// tests that.
    pub fn load_choices(&mut self)
        requires
            old(self).wf(),
            old(self).raw_valid(),
        ensures
            final(self).wf(),
            final(self).raw == old(self).raw,
            final(self).choices@.len() == old(self).choices@.len(),
            forall|i: int| 0 <= i < final(self).choices@.len()
                ==> final(self).choices@[i] == choice_of_byte(final(self).raw@[i]),
    {
        let n = self.raw.len();
        let mut i: usize = 0;
        while i < n
            invariant
                i <= n,
                self.wf(),
                self.raw == old(self).raw,
                self.raw@.len() == n,
                self.raw_valid(),
                forall|j: int| 0 <= j < i ==> self.choices@[j] == choice_of_byte(self.raw@[j]),
            decreases n - i,
        {
            let b = self.raw[i];
            let c = if b == 0 {
                Choice::Unknown
            } else if b == 1 {
                Choice::Left
            } else if b == 2 {
                Choice::Right
            } else {
                Choice::Both
            };
            self.choices.set(i, c);
            i = i + 1;
        }
    }

    /// Whether every raw byte is a valid wire value, so that
    /// [`ChoiceTrace::load_choices`] may run.
    pub fn check_raw(&self) -> (ok: bool)
        ensures
            ok == self.raw_valid(),
    {
        let mut i: usize = 0;
        while i < self.raw.len()
            invariant
                i <= self.raw@.len(),
                forall|j: int| 0 <= j < i ==> self.raw@[j] <= 3,
            decreases self.raw@.len() - i,
        {
            if self.raw[i] > 3 {
                return false;
            }
            i = i + 1;
        }
        true
    }
}

} // verus!
