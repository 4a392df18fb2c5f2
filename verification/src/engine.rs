//! The audio engine: applies the gain coefficient to every sample of a
//! processing block, each of the two channels independently, through the
//! one multiply the caller supplies.
//!
//! Samples and coefficients are 32-bit patterns; the engine never interprets
//! them. It only walks the block, so its contract says exactly which word of
//! which buffer each output word came from. The caller's multiply carries
//! its own contract, and every output word is pinned to it.

use vstd::prelude::*;

use crate::bridge::ParamCell;

verus! {

/// Multiply one block of samples by the per-sample gain, one channel.
///
/// For each frame `i` below `frames`, `output[i]` becomes a result of
/// `multiply` on `(input[i], gain[i])`; frames past `frames` are untouched.
pub fn apply_gain<F: Fn(u32, u32) -> u32>(
    multiply: &F,
    input: &Vec<u32>,
    gain: &Vec<u32>,
    output: &mut Vec<u32>,
    frames: usize,
)
    requires
        forall|a: u32, b: u32| call_requires(*multiply, (a, b)),
        input@.len() >= frames,
        gain@.len() >= frames,
        old(output)@.len() >= frames,
    ensures
        final(output)@.len() == old(output)@.len(),
        forall|i: int|
            0 <= i < frames ==> call_ensures(*multiply, (input@[i], gain@[i]),
                #[trigger] final(output)@[i]),
        forall|i: int|
            frames <= i < old(output)@.len() ==> final(output)@[i] == old(output)@[i],
{
    let mut i: usize = 0;
    while i < frames
        invariant
            forall|a: u32, b: u32| call_requires(*multiply, (a, b)),
            i <= frames,
            input@.len() >= frames,
            gain@.len() >= frames,
            output@.len() == old(output)@.len() >= frames,
            forall|j: int|
                0 <= j < i ==> call_ensures(*multiply, (input@[j], gain@[j]), #[trigger] output@[j]),
            forall|j: int| i <= j < old(output)@.len() ==> output@[j] == old(output)@[j],
        decreases frames - i,
    {
        output[i] = multiply(input[i], gain[i]);
        i += 1;
    }
}

/// Process one stereo block: both channels get the same per-sample gain,
/// each computed from its own input alone.
pub fn process<F: Fn(u32, u32) -> u32>(
    multiply: &F,
    input_left: &Vec<u32>,
    input_right: &Vec<u32>,
    gain: &Vec<u32>,
    output_left: &mut Vec<u32>,
    output_right: &mut Vec<u32>,
    frames: usize,
)
    requires
        forall|a: u32, b: u32| call_requires(*multiply, (a, b)),
        input_left@.len() >= frames,
        input_right@.len() >= frames,
        gain@.len() >= frames,
        old(output_left)@.len() >= frames,
        old(output_right)@.len() >= frames,
    ensures
        final(output_left)@.len() == old(output_left)@.len(),
        final(output_right)@.len() == old(output_right)@.len(),
        forall|i: int|
            0 <= i < frames ==> call_ensures(*multiply, (input_left@[i], gain@[i]),
                #[trigger] final(output_left)@[i]),
        forall|i: int|
            0 <= i < frames ==> call_ensures(*multiply, (input_right@[i], gain@[i]),
                #[trigger] final(output_right)@[i]),
        forall|i: int|
            frames <= i < old(output_left)@.len() ==> final(output_left)@[i]
                == old(output_left)@[i],
        forall|i: int|
            frames <= i < old(output_right)@.len() ==> final(output_right)@[i]
                == old(output_right)@[i],
{
    apply_gain(multiply, input_left, gain, output_left, frames);
    apply_gain(multiply, input_right, gain, output_right, frames);
}

/// Multiply one block of samples by a single gain word, one channel: the
/// coefficient is held constant across the block.
pub fn apply_constant_gain<F: Fn(u32, u32) -> u32>(
    multiply: &F,
    input: &Vec<u32>,
    gain_bits: u32,
    output: &mut Vec<u32>,
    frames: usize,
)
    requires
        forall|a: u32, b: u32| call_requires(*multiply, (a, b)),
        input@.len() >= frames,
        old(output)@.len() >= frames,
    ensures
        final(output)@.len() == old(output)@.len(),
        forall|i: int|
            0 <= i < frames ==> call_ensures(*multiply, (input@[i], gain_bits),
                #[trigger] final(output)@[i]),
        forall|i: int|
            frames <= i < old(output)@.len() ==> final(output)@[i] == old(output)@[i],
{
    let mut i: usize = 0;
    while i < frames
        invariant
            forall|a: u32, b: u32| call_requires(*multiply, (a, b)),
            i <= frames,
            input@.len() >= frames,
            output@.len() == old(output)@.len() >= frames,
            forall|j: int|
                0 <= j < i ==> call_ensures(*multiply, (input@[j], gain_bits),
                    #[trigger] output@[j]),
            forall|j: int| i <= j < old(output)@.len() ==> output@[j] == old(output)@[j],
        decreases frames - i,
    {
        output[i] = multiply(input[i], gain_bits);
        i += 1;
    }
}

/// Process one stereo block against the bridge: the callback reads the
/// current coefficient from the shared register once, then scales both
/// channels by it.
pub fn process_block<F: Fn(u32, u32) -> u32>(
    multiply: &F,
    cell: &ParamCell,
    input_left: &Vec<u32>,
    input_right: &Vec<u32>,
    output_left: &mut Vec<u32>,
    output_right: &mut Vec<u32>,
    frames: usize,
)
    requires
        forall|a: u32, b: u32| call_requires(*multiply, (a, b)),
        input_left@.len() >= frames,
        input_right@.len() >= frames,
        old(output_left)@.len() >= frames,
        old(output_right)@.len() >= frames,
    ensures
        final(output_left)@.len() == old(output_left)@.len(),
        final(output_right)@.len() == old(output_right)@.len(),
        forall|i: int|
            0 <= i < frames ==> call_ensures(*multiply, (input_left@[i], cell@),
                #[trigger] final(output_left)@[i]),
        forall|i: int|
            0 <= i < frames ==> call_ensures(*multiply, (input_right@[i], cell@),
                #[trigger] final(output_right)@[i]),
        forall|i: int|
            frames <= i < old(output_left)@.len() ==> final(output_left)@[i]
                == old(output_left)@[i],
        forall|i: int|
            frames <= i < old(output_right)@.len() ==> final(output_right)@[i]
                == old(output_right)@[i],
{
    let gain_bits = cell.get();
    apply_constant_gain(multiply, input_left, gain_bits, output_left, frames);
    apply_constant_gain(multiply, input_right, gain_bits, output_right, frames);
}

/// Elementwise exactness: when every result the supplied multiply can
/// return on `(a, b)` is `m(a, b)`, a channel whose words satisfy the
/// engine's contract holds exactly `m(input[i], gain[i])` at every frame.
/// Both channels are pinned by the same argument, each from its own
/// input, so equal inputs give equal outputs whichever channel they
/// arrive on.
pub proof fn lemma_deterministic_multiply_pins_output<F: Fn(u32, u32) -> u32>(
    multiply: F,
    m: spec_fn(u32, u32) -> u32,
    input: Seq<u32>,
    gain: Seq<u32>,
    output: Seq<u32>,
    frames: int,
)
    requires
        forall|a: u32, b: u32, r: u32| call_ensures(multiply, (a, b), r) ==> r == m(a, b),
        forall|i: int| 0 <= i < frames ==> call_ensures(multiply, (input[i], gain[i]),
            #[trigger] output[i]),
    ensures
        forall|i: int| 0 <= i < frames ==> #[trigger] output[i] == m(input[i], gain[i]),
{
}

} // verus!
