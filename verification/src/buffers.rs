//! Data movement of the block pipeline, generic over the scalar sample
//! type: loading a sample block into the complex working buffer, and
//! extracting the real component of every transformed slot into the
//! output buffer. A host instantiates these with its floating-point
//! scalar; the arithmetic between the two steps — windowing products and
//! the transform itself — runs host-side.

use rustfft::num_complex::Complex;
use vstd::prelude::*;

verus! {

/// The complex slot type of the working buffer, as the transform
/// engine's numeric crate defines it: relies on num_complex::Complex
/// being a plain pair of a real and an imaginary component.
#[verifier::external_type_specification]
#[verifier::reject_recursive_types(T)]
pub struct ExComplex<T>(Complex<T>);

/// Writes one sample block into the complex working buffer: slot `i`
/// becomes `samples[i]` with a zero imaginary component. This is the
/// unwindowed load; with a window active the host scales each sample by
/// its coefficient first.
pub fn load_block<T: Copy>(buffer: &mut Vec<Complex<T>>, samples: &[T], zero: T)
    requires
        old(buffer).len() == samples@.len(),
    ensures
        final(buffer)@.len() == samples@.len(),
        forall|i: int|
            0 <= i < samples@.len() ==> (#[trigger] final(buffer)@[i]).re == samples@[i]
                && final(buffer)@[i].im == zero,
{
    let n = samples.len();
    for i in 0..n
        invariant
            buffer@.len() == samples@.len(),
            n == samples@.len(),
            forall|j: int|
                0 <= j < i ==> (#[trigger] buffer@[j]).re == samples@[j] && buffer@[j].im == zero,
    {
        buffer[i] = Complex { re: samples[i], im: zero };
    }
}

/// Reads the real component of every transformed slot into the output
/// buffer — the real component, not a magnitude: no `sqrt(re*re + im*im)`
/// is computed anywhere in this pipeline.
pub fn extract_real<T: Copy>(buffer: &Vec<Complex<T>>, out: &mut Vec<T>)
    requires
        old(out).len() == buffer.len(),
    ensures
        final(out)@.len() == buffer@.len(),
        forall|i: int| 0 <= i < buffer@.len() ==> (#[trigger] final(out)@[i]) == buffer@[i].re,
{
    let n = buffer.len();
    for i in 0..n
        invariant
            out@.len() == buffer@.len(),
            n == buffer@.len(),
            forall|j: int| 0 <= j < i ==> (#[trigger] out@[j]) == buffer@[j].re,
    {
        out[i] = buffer[i].re;
    }
}

} // verus!
