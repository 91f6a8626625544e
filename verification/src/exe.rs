//! Executable buffers: from verified machine words to runnable memory.
//!
//! The assemblers produce the instruction stream as a vector of 32-bit
//! words.  This module serializes it to little-endian bytes (verified) and
//! feeds the bytes through `dynasmrt`, which owns the W^X page handling:
//! memory is writable while the stream is copied in and read-execute-only
//! afterwards.  The entry point of every compiled function is offset 0.
//! Obtaining the raw entry pointer and invoking it is left to unverified
//! callers.

use vstd::prelude::*;
use dynasmrt::DynasmApi;
use crate::driver::{build_asm_fn, compiled};
use crate::float::FloatAssembler;
use crate::enc::STRB_W16_X0_POST;
use crate::driver::count_word;
use crate::interval::{IntervalAssembler, lemma_interval_choice_stores};
use crate::ops::{MEM_LIMIT, Tape, num_choices, tape_wf};
use crate::point::PointAssembler;
use crate::vector::VecAssembler;

verus! {

#[verifier::external_type_specification]
#[verifier::external_body]
pub struct ExExecutableBuffer(dynasmrt::ExecutableBuffer);

/// A byte sink backed by `dynasmrt::aarch64::Assembler`.
///
/// Verus cannot take the assembler type directly (its generic parameter is
/// bound by an outside trait), so it sits in this opaque struct.  The only
/// operations ever applied to the inner assembler are `new`, `push` and
/// `finalize`; in particular no labels or relocations are registered, so
/// committing it cannot hit a relocation error.
#[verifier::external_body]
pub struct ByteSink {
    inner: dynasmrt::Assembler<dynasmrt::aarch64::Aarch64Relocation>,
}

/// The bytes pushed into a sink so far, in order.
pub uninterp spec fn sink_bytes(a: ByteSink) -> Seq<u8>;

/// The bytes a finalized buffer holds, in order.
pub uninterp spec fn buffer_bytes(b: dynasmrt::ExecutableBuffer) -> Seq<u8>;

impl ByteSink {
    /// Relies on `dynasmrt::Assembler::new`: a fresh assembler holds no
    /// bytes; creation fails only if no executable memory can be mapped.
    #[verifier::external_body]
    fn new() -> (r: Option<ByteSink>)
        ensures
            r matches Some(a) ==> sink_bytes(a) == Seq::<u8>::empty(),
    {
        match dynasmrt::aarch64::Assembler::new() {
            Ok(inner) => Some(ByteSink { inner }),
            Err(_) => None,
        }
    }

    /// Relies on `dynasmrt::DynasmApi::push` for `dynasmrt::Assembler`:
    /// appends one byte to the instruction stream and touches nothing else.
    #[verifier::external_body]
    fn push(&mut self, b: u8)
        ensures
            sink_bytes(*final(self)) == sink_bytes(*old(self)).push(b),
    {
        self.inner.push(b);
    }

    /// Relies on `dynasmrt::Assembler::finalize`: commits the pushed bytes
    /// into an executable buffer holding exactly those bytes, in order.
    /// Committing panics only on relocation errors, which this sink cannot
    /// produce, or if memory cannot be allocated.
    #[verifier::external_body]
    fn finalize(self) -> (r: Option<dynasmrt::ExecutableBuffer>)
        ensures
            r matches Some(b) ==> buffer_bytes(b) == sink_bytes(self),
    {
        self.inner.finalize().ok()
    }
}

/// Relies on `ExecutableBuffer`'s `Deref` to `[u8]`: the number of bytes
/// written into the buffer.
#[verifier::external_body]
fn buffer_len(b: &dynasmrt::ExecutableBuffer) -> (n: usize)
    ensures
        n == buffer_bytes(*b).len(),
{
    b.len()
}

/// Relies on `ExecutableBuffer`'s `Deref` to `[u8]`: one written byte.
#[verifier::external_body]
fn buffer_byte(b: &dynasmrt::ExecutableBuffer, i: usize) -> (x: u8)
    requires
        i < buffer_bytes(*b).len(),
    ensures
        x == buffer_bytes(*b)[i as int],
{
    b[i]
}

/// Copies a buffer's bytes out, so that callers can inspect what was
/// committed to executable memory.
pub fn buffer_to_vec(b: &dynasmrt::ExecutableBuffer) -> (r: Vec<u8>)
    ensures
        r@ == buffer_bytes(*b),
{
    let n = buffer_len(b);
    let mut r: Vec<u8> = Vec::new();
    let mut i: usize = 0;
    while i < n
        invariant
            i <= n,
            n == buffer_bytes(*b).len(),
            r@ =~= buffer_bytes(*b).take(i as int),
        decreases n - i,
    {
        r.push(buffer_byte(b, i));
        proof {
            assert(r@ =~= buffer_bytes(*b).take(i as int + 1));
        }
        i = i + 1;
    }
    proof {
        assert(buffer_bytes(*b).take(buffer_bytes(*b).len() as int) =~= buffer_bytes(*b));
    }
    r
}

/// The little-endian bytes of one instruction word.
pub open spec fn word_bytes(w: u32) -> Seq<u8> {
    seq![
        (w & 0xFF) as u8,
        ((w >> 8) & 0xFF) as u8,
        ((w >> 16) & 0xFF) as u8,
        ((w >> 24) & 0xFF) as u8,
    ]
}

/// The little-endian byte stream of an instruction word sequence.
pub open spec fn le_bytes(words: Seq<u32>) -> Seq<u8>
    decreases words.len(),
{
    if words.len() == 0 {
        Seq::empty()
    } else {
        word_bytes(words[0]) + le_bytes(words.skip(1))
    }
}

/// Serializing a prefix extends one word at a time.
proof fn lemma_le_bytes_step(words: Seq<u32>, i: int)
    requires
        0 <= i < words.len(),
    ensures
        le_bytes(words.take(i + 1)) == le_bytes(words.take(i)) + word_bytes(words[i]),
    decreases i,
{
    reveal_with_fuel(le_bytes, 2);
    let a = words.take(i + 1);
    let b = words.take(i);
    if i == 0 {
        assert(a[0] == words[0]);
        assert(a.skip(1) =~= Seq::<u32>::empty());
        assert(b =~= Seq::<u32>::empty());
        assert(le_bytes(a) =~= le_bytes(b) + word_bytes(words[0]));
    } else {
        lemma_le_bytes_step(words.skip(1), i - 1);
        assert(a.skip(1) =~= words.skip(1).take(i));
        assert(b.skip(1) =~= words.skip(1).take(i - 1));
        assert(words.skip(1)[i - 1] == words[i]);
        assert(a[0] == words[0] && b[0] == words[0]);
        assert(le_bytes(a) =~= le_bytes(b) + word_bytes(words[i]));
    }
}

/// Feeds an instruction stream through `dynasmrt` into executable memory.
/// Returns `None` only if executable memory cannot be mapped; on success the
/// buffer holds exactly the little-endian serialization of `code`, with the
/// entry point at offset 0.
pub fn assemble(code: &Vec<u32>) -> (r: Option<dynasmrt::ExecutableBuffer>)
    ensures
        r matches Some(b) ==> buffer_bytes(b) == le_bytes(code@),
{
    let a0 = ByteSink::new();
    let mut a = match a0 {
        Some(a) => a,
        None => {
            return None;
        }
    };
    let mut i: usize = 0;
    proof {
        assert(code@.take(0) =~= Seq::<u32>::empty());
    }
    while i < code.len()
        invariant
            i <= code@.len(),
            sink_bytes(a) == le_bytes(code@.take(i as int)),
        decreases code@.len() - i,
    {
        let w = code[i];
        proof {
            assert(w & 0xFF < 0x100 && (w >> 8) & 0xFF < 0x100 && (w >> 16) & 0xFF < 0x100
                && (w >> 24) & 0xFF < 0x100) by (bit_vector);
        }
        a.push((w & 0xFF) as u8);
        a.push(((w >> 8) & 0xFF) as u8);
        a.push(((w >> 16) & 0xFF) as u8);
        a.push(((w >> 24) & 0xFF) as u8);
        proof {
            lemma_le_bytes_step(code@, i as int);
            assert(sink_bytes(a) =~= le_bytes(code@.take(i as int + 1)));
        }
        i = i + 1;
    }
    proof {
        assert(code@.take(code@.len() as int) =~= code@);
    }
    a.finalize()
}

/// Compiles a tape with the plain scalar flavor: `fn(f32, f32, f32) -> f32`.
/// Returns `None` when the tape is not well formed for 4-byte slots, when
/// the requested spill slots do not fit the frame limit, or when executable
/// memory cannot be mapped; otherwise the buffer holds exactly the lowered
/// stream.
pub fn compile_float(t: &Tape, slot_count: usize) -> (r: Option<dynasmrt::ExecutableBuffer>)
    ensures
        r matches Some(b) ==> tape_wf(t.ops@, 4)
            && buffer_bytes(b) == le_bytes(compiled::<FloatAssembler>(t.ops@, slot_count as nat)),
{
    if !t.check(4) || slot_count > MEM_LIMIT / 4 {
        return None;
    }
    let code = build_asm_fn::<FloatAssembler>(t, slot_count);
    assemble(&code)
}

/// Compiles a tape with the tracing point flavor: `fn(f32, f32, f32) -> f32`
/// with a variable pointer in x0, the choice pointer in x1 and the simplify
/// flag behind x2.
pub fn compile_point(t: &Tape, slot_count: usize) -> (r: Option<dynasmrt::ExecutableBuffer>)
    ensures
        r matches Some(b) ==> tape_wf(t.ops@, 4)
            && buffer_bytes(b) == le_bytes(compiled::<PointAssembler>(t.ops@, slot_count as nat)),
{
    if !t.check(4) || slot_count > MEM_LIMIT / 4 {
        return None;
    }
    let code = build_asm_fn::<PointAssembler>(t, slot_count);
    assemble(&code)
}

/// Compiles a tape with the interval flavor:
/// `fn([f32; 2], [f32; 2], [f32; 2], *mut u8) -> [f32; 2]`.  The caller owns
/// a choice buffer of exactly `t.choice_count()` bytes; the compiled stream
/// holds exactly one choice-store instruction per `min`/`max` node, so a
/// full evaluation advances the write pointer by exactly that count.
pub fn compile_interval(t: &Tape, slot_count: usize) -> (r: Option<
    dynasmrt::ExecutableBuffer,
>)
    ensures
        r matches Some(b) ==> tape_wf(t.ops@, 8)
            && buffer_bytes(b) == le_bytes(
                compiled::<IntervalAssembler>(t.ops@, slot_count as nat),
            )
            && count_word(
            compiled::<IntervalAssembler>(t.ops@, slot_count as nat),
            STRB_W16_X0_POST,
        ) == num_choices(t.ops@),
{
    if !t.check(8) || slot_count > MEM_LIMIT / 8 {
        return None;
    }
    proof {
        if tape_wf(t.ops@, 8) && slot_count * 8 <= MEM_LIMIT as nat {
            lemma_interval_choice_stores(t.ops@, slot_count as nat);
        }
    }
    let code = build_asm_fn::<IntervalAssembler>(t, slot_count);
    assemble(&code)
}

/// Compiles a tape with the 4-lane SIMD flavor:
/// `fn(*const f32, *const f32, *const f32, *mut f32)`.
pub fn compile_vec(t: &Tape, slot_count: usize) -> (r: Option<dynasmrt::ExecutableBuffer>)
    ensures
        r matches Some(b) ==> tape_wf(t.ops@, 16)
            && buffer_bytes(b) == le_bytes(compiled::<VecAssembler>(t.ops@, slot_count as nat)),
{
    if !t.check(16) || slot_count > MEM_LIMIT / 16 {
        return None;
    }
    let code = build_asm_fn::<VecAssembler>(t, slot_count);
    assemble(&code)
}

} // verus!
