//! Sample-rate conversion decisions.
//!
//! Every track is brought to one output rate so that tracks of different
//! rates follow each other without a gap. When a track is already at that
//! rate its samples pass through unchanged.

use vstd::prelude::*;

verus! {

/// The output sample rate of the engine.
pub const DEFAULT_OUTPUT_SAMPLE_RATE: u32 = 48000;

/// Whether samples at `input_rate` must be converted to play at
/// `output_rate`.
pub fn needs_resampling(input_rate: u32, output_rate: u32) -> (r: bool)
    ensures
        r == (input_rate != output_rate),
{
    input_rate != output_rate
}

/// The conversion between two equal rates: copies as many samples as both
/// buffers hold, leaves the rest of `output` alone, and returns the count.
pub fn passthrough<T: Copy>(input: &[T], output: &mut [T]) -> (n: usize)
    ensures
        n == (if input@.len() < old(output)@.len() {
            input@.len()
        } else {
            old(output)@.len()
        }),
        final(output)@.len() == old(output)@.len(),
        final(output)@.subrange(0, n as int) == input@.subrange(0, n as int),
        final(output)@.subrange(n as int, final(output)@.len() as int) == old(output)@.subrange(
            n as int,
            old(output)@.len() as int,
        ),
{
    let n = if input.len() < output.len() {
        input.len()
    } else {
        output.len()
    };
    let mut i: usize = 0;
    while i < n
        invariant
            n <= input@.len(),
            n <= old(output)@.len(),
            output@.len() == old(output)@.len(),
            i <= n,
            forall|j: int| 0 <= j < i ==> output@[j] == input@[j],
            forall|j: int| n <= j < output@.len() ==> output@[j] == old(output)@[j],
        decreases n - i,
    {
        output[i] = input[i];
        i = i + 1;
    }
    assert(output@.subrange(0, n as int) =~= input@.subrange(0, n as int));
    assert(output@.subrange(n as int, output@.len() as int) =~= old(output)@.subrange(
        n as int,
        old(output)@.len() as int,
    ));
    n
}

/// Converting a buffer between equal rates into a buffer at least as long
/// gives the buffer back.
pub proof fn lemma_passthrough_identity<T>(input: Seq<T>, before: Seq<T>, after: Seq<T>, n: nat)
    requires
        input.len() <= before.len(),
        n == input.len(),
        after.len() == before.len(),
        after.subrange(0, n as int) == input.subrange(0, n as int),
    ensures
        after.subrange(0, input.len() as int) == input,
{
    assert(input.subrange(0, n as int) =~= input);
}

} // verus!
