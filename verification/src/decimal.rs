//! Rendering a number for the panic screen without any allocation-heavy
//! formatting machinery: the digits are produced straight into a small
//! buffer.

use vstd::prelude::*;

verus! {

/// The digits the renderer keeps: every digit of `u` that is not zero, in
/// order. Zero digits are left out wherever they stand, so `105` renders
/// as `15`; the renderer's one job is the panic screen's line and column
/// numbers, where this compactness has been deemed acceptable.
pub open spec fn nonzero_decimal_digits(u: nat) -> Seq<u8>
    decreases u,
{
    if u == 0 {
        Seq::<u8>::empty()
    } else {
        let rest = nonzero_decimal_digits(u / 10);
        if u % 10 == 0 {
            rest
        } else {
            rest.push((u % 10 + 48) as u8)
        }
    }
}

/// Text with enough capacity for the rendering of any 32-bit value.
pub struct U32Str {
    value: Vec<u8>,
}

impl View for U32Str {
    type V = Seq<u8>;

    closed spec fn view(&self) -> Seq<u8> {
        self.value@
    }
}

impl U32Str {
    /// The rendered bytes.
    pub fn as_bytes(&self) -> (r: &[u8])
        ensures
            r@ == self@,
    {
        self.value.as_slice()
    }

    /// Renders the nonzero decimal digits of `u`.
    pub fn from(u: u32) -> (r: Self)
        ensures
            r@ == nonzero_decimal_digits(u as nat),
    {
        U32Str { value: nonzero_digits_of(u) }
    }
}

fn nonzero_digits_of(u: u32) -> (r: Vec<u8>)
    ensures
        r@ == nonzero_decimal_digits(u as nat),
    decreases u,
{
    if u == 0 {
        let r: Vec<u8> = Vec::new();
        proof {
            assert(r@ =~= nonzero_decimal_digits(0));
        }
        r
    } else {
        let mut r = nonzero_digits_of(u / 10);
        let d = u % 10;
        if d != 0 {
            r.push((d + 48) as u8);
        }
        r
    }
}

} // verus!
