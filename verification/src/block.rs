//! Whole-block processing: one batch of frames, four input channels
//! (primary left/right, then sidechain left/right) and two output channels.

use vstd::prelude::*;
use vstd::pervasive::VecAdditionalExecFns;
use crate::clipper::{process_sample, processed_spec};
use crate::fixed::normalized_gain;
use crate::params::ParamStore;
use crate::{AMP_LIMIT, MICRO};

verus! {

/// One audio block: a primary stereo pair, a sidechain stereo pair, and
/// the primary stereo output. All six buffers hold one sample per frame,
/// in micro-units.
pub struct Block {
    pub input_left: Vec<i64>,
    pub input_right: Vec<i64>,
    pub sidechain_left: Vec<i64>,
    pub sidechain_right: Vec<i64>,
    pub output_left: Vec<i64>,
    pub output_right: Vec<i64>,
}

/// Every sample of a buffer lies within the amplitude range the
/// processor accepts.
pub open spec fn in_range(buf: Seq<i64>) -> bool {
    forall|i: int| 0 <= i < buf.len() ==> -AMP_LIMIT <= #[trigger] buf[i] <= AMP_LIMIT
}

impl Block {
    /// Number of frames in the block.
    pub open spec fn frames(self) -> nat {
        self.input_left@.len()
    }

    /// All six buffers share one frame count and the input samples are
    /// within the accepted amplitude range.
    pub open spec fn wf(self) -> bool {
        &&& self.input_right@.len() == self.frames()
        &&& self.sidechain_left@.len() == self.frames()
        &&& self.sidechain_right@.len() == self.frames()
        &&& self.output_left@.len() == self.frames()
        &&& self.output_right@.len() == self.frames()
        &&& in_range(self.input_left@)
        &&& in_range(self.input_right@)
        &&& in_range(self.sidechain_left@)
        &&& in_range(self.sidechain_right@)
    }
}

/// Processes one channel: frame by frame, clips the primary sample into
/// the envelope that the matching sidechain sample defines.
fn process_channel(
    input: &Vec<i64>,
    sidechain: &Vec<i64>,
    output: &mut Vec<i64>,
    threshold: i64,
    norm_gain: i64,
)
    requires
        sidechain@.len() == input@.len(),
        old(output)@.len() == input@.len(),
        in_range(input@),
        in_range(sidechain@),
        0 <= threshold <= MICRO,
        0 <= norm_gain <= 5 * MICRO,
    ensures
        final(output)@.len() == input@.len(),
        forall|i: int| 0 <= i < input@.len() ==> final(output)@[i] == processed_spec(
            input@[i] as int,
            threshold as int,
            sidechain@[i] as int,
            norm_gain as int,
        ),
{
    let frames = input.len();
    let mut i: usize = 0;
    while i < frames
        invariant
            frames == input@.len(),
            sidechain@.len() == frames,
            output@.len() == frames,
            in_range(input@),
            in_range(sidechain@),
            0 <= threshold <= MICRO,
            0 <= norm_gain <= 5 * MICRO,
            i <= frames,
            forall|j: int| 0 <= j < i ==> output@[j] == processed_spec(
                input@[j] as int,
                threshold as int,
                sidechain@[j] as int,
                norm_gain as int,
            ),
        decreases frames - i,
    {
        let r = process_sample(input[i], threshold, sidechain[i], norm_gain);
        output.set(i, r);
        i = i + 1;
    }
}

/// Processes one block in place. The parameter store is read once, at
/// entry, so the whole block is shaped by one snapshot of the threshold
/// and the sidechain gain; each output sample is the matching primary
/// sample clipped into the envelope of the matching sidechain sample.
pub fn process(block: &mut Block, params: &ParamStore)
    requires
        old(block).wf(),
        params.wf(),
    ensures
        final(block).wf(),
        final(block).frames() == old(block).frames(),
        final(block).input_left == old(block).input_left,
        final(block).input_right == old(block).input_right,
        final(block).sidechain_left == old(block).sidechain_left,
        final(block).sidechain_right == old(block).sidechain_right,
        forall|i: int| 0 <= i < old(block).frames() ==> final(block).output_left@[i]
            == processed_spec(
            old(block).input_left@[i] as int,
            params.threshold as int,
            old(block).sidechain_left@[i] as int,
            crate::fixed::norm_gain_spec(params.sidechain_gain as int),
        ),
        forall|i: int| 0 <= i < old(block).frames() ==> final(block).output_right@[i]
            == processed_spec(
            old(block).input_right@[i] as int,
            params.threshold as int,
            old(block).sidechain_right@[i] as int,
            crate::fixed::norm_gain_spec(params.sidechain_gain as int),
        ),
{
    let threshold = params.threshold;
    let norm_gain = normalized_gain(params.sidechain_gain);
    process_channel(
        &block.input_left,
        &block.sidechain_left,
        &mut block.output_left,
        threshold,
        norm_gain,
    );
    process_channel(
        &block.input_right,
        &block.sidechain_right,
        &mut block.output_right,
        threshold,
        norm_gain,
    );
}

} // verus!
