//! The new control-register values that activation writes back.
//!
//! On this architecture a floating-point exception class traps when its mask
//! bit is clear, in the x87 control word for legacy arithmetic and in the
//! MXCSR register for vector arithmetic. Activation performs a
//! read-modify-write on each register of the calling thread: read the
//! current value, clear exactly the divide-by-zero and invalid-operation
//! mask bits, write the result back. Every other bit — rounding mode,
//! precision control, the other exception masks, the sticky flags — is kept.
//! The single-instruction register reads and writes live outside this
//! library; the value each write stores is computed and proved here.

use vstd::prelude::*;

verus! {

/// Divide-by-zero exception mask bit of the x87 control word.
pub const FCW_ZM: u16 = 1 << 2;

/// Invalid-operation exception mask bit of the x87 control word.
pub const FCW_IM: u16 = 1 << 0;

/// Divide-by-zero exception mask bit of MXCSR.
pub const MXCSR_ZM: u32 = 1 << 9;

/// Invalid-operation exception mask bit of MXCSR.
pub const MXCSR_IM: u32 = 1 << 7;

/// Bit `i` of a 16-bit register value.
pub open spec fn bit16(w: u16, i: u16) -> bool {
    (w >> i) & 1 == 1
}

/// Bit `i` of a 32-bit register value.
pub open spec fn bit32(w: u32, i: u32) -> bool {
    (w >> i) & 1 == 1
}

/// Clearing the two x87 mask bits clears exactly them: bits 2 and 0 of the
/// result are zero and every other bit keeps its value.
pub proof fn lemma_x87_unmask_exact(fcw: u16)
    by (bit_vector)
    ensures
        !bit16(fcw & !(FCW_ZM | FCW_IM), 2),
        !bit16(fcw & !(FCW_ZM | FCW_IM), 0),
        forall|i: u16|
            i < 16 && i != 2 && i != 0 ==> #[trigger] bit16(fcw & !(FCW_ZM | FCW_IM), i) == bit16(
                fcw,
                i,
            ),
{
}

/// Clearing the two MXCSR mask bits clears exactly them: bits 9 and 7 of
/// the result are zero and every other bit keeps its value.
pub proof fn lemma_mxcsr_unmask_exact(mxcsr: u32)
    by (bit_vector)
    ensures
        !bit32(mxcsr & !(MXCSR_ZM | MXCSR_IM), 9),
        !bit32(mxcsr & !(MXCSR_ZM | MXCSR_IM), 7),
        forall|i: u32|
            i < 32 && i != 9 && i != 7 ==> #[trigger] bit32(mxcsr & !(MXCSR_ZM | MXCSR_IM), i)
                == bit32(mxcsr, i),
{
}

/// The x87 control word an activation writes back: the divide-by-zero and
/// invalid-operation masks cleared, so those exceptions trap from now on,
/// and every other bit of the word untouched.
pub fn unmask_x87_control_word(fcw: u16) -> (r: u16)
    ensures
        r == fcw & !(FCW_ZM | FCW_IM),
        !bit16(r, 2),
        !bit16(r, 0),
        forall|i: u16| i < 16 && i != 2 && i != 0 ==> #[trigger] bit16(r, i) == bit16(fcw, i),
{
    proof {
        lemma_x87_unmask_exact(fcw);
    }
    fcw & !(FCW_ZM | FCW_IM)
}

/// The MXCSR value an activation writes back: the divide-by-zero and
/// invalid-operation masks cleared, so those exceptions trap from now on,
/// and every other bit of the register untouched.
pub fn unmask_mxcsr(mxcsr: u32) -> (r: u32)
    ensures
        r == mxcsr & !(MXCSR_ZM | MXCSR_IM),
        !bit32(r, 9),
        !bit32(r, 7),
        forall|i: u32| i < 32 && i != 9 && i != 7 ==> #[trigger] bit32(r, i) == bit32(mxcsr, i),
{
    proof {
        lemma_mxcsr_unmask_exact(mxcsr);
    }
    mxcsr & !(MXCSR_ZM | MXCSR_IM)
}

/// Running the register update a second time writes back the value already
/// there: activation is idempotent at the register level.
pub proof fn lemma_unmask_idempotent(fcw: u16, mxcsr: u32)
    by (bit_vector)
    ensures
        (fcw & !(FCW_ZM | FCW_IM)) & !(FCW_ZM | FCW_IM) == fcw & !(FCW_ZM | FCW_IM),
        (mxcsr & !(MXCSR_ZM | MXCSR_IM)) & !(MXCSR_ZM | MXCSR_IM) == mxcsr & !(MXCSR_ZM
            | MXCSR_IM),
{
}

} // verus!
