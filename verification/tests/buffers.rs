//! The path from verified machine words to executable memory: the buffer
//! must hold exactly the little-endian serialization of the stream.

use tapejit::driver::build_asm_fn;
use tapejit::exe::{assemble, buffer_to_vec, compile_float, compile_interval};
use tapejit::float::FloatAssembler;
use tapejit::ops::{AsmOp, Tape};

fn tape(ops: &[AsmOp]) -> Tape {
    let mut t = Tape::new();
    for &op in ops {
        t.push(op);
    }
    t
}

#[test]
fn test_assemble_bytes() {
    let code: Vec<u32> = vec![0xA9BF7BFD, 0xD65F03C0];
    let buf = assemble(&code).expect("executable memory");
    assert_eq!(
        buffer_to_vec(&buf),
        vec![0xFD, 0x7B, 0xBF, 0xA9, 0xC0, 0x03, 0x5F, 0xD6]
    );
}

#[test]
fn test_compile_float_buffer() {
    let t = tape(&[AsmOp::Input(0, 0)]);
    let words = build_asm_fn::<FloatAssembler>(&t, 0);
    let buf = compile_float(&t, 0).expect("executable memory");
    let bytes = buffer_to_vec(&buf);
    assert_eq!(bytes.len(), 4 * words.len());
    for (i, w) in words.iter().enumerate() {
        assert_eq!(&bytes[4 * i..4 * i + 4], w.to_le_bytes());
    }
}

#[test]
fn test_compile_rejects_bad_tape() {
    let bad = tape(&[AsmOp::AddRegReg(24, 0, 0)]);
    assert!(compile_float(&bad, 0).is_none());
    let too_deep = tape(&[AsmOp::Store(0, 600)]);
    // Slot 600 fits the scalar flavor but not the interval flavor's 8-byte
    // slots times the frame limit.
    assert!(compile_float(&too_deep, 0).is_some());
    assert!(compile_interval(&too_deep, 0).is_none());
}

#[test]
fn test_compile_interval_buffer_has_choice_stores() {
    let t = tape(&[
        AsmOp::Input(0, 0),
        AsmOp::Input(1, 1),
        AsmOp::MinRegReg(0, 0, 1),
        AsmOp::MaxRegImm(0, 0, 1.0f32.to_bits()),
    ]);
    let buf = compile_interval(&t, 0).expect("executable memory");
    let bytes = buffer_to_vec(&buf);
    // Count the choice-store words (strb w16, [x0], #1) in the byte stream.
    let mut stores = 0;
    for chunk in bytes.chunks(4) {
        if chunk == 0x38001410u32.to_le_bytes() {
            stores += 1;
        }
    }
    assert_eq!(stores, t.choice_count());
}
