//! The effect's fixed identity and its capability answers, which an
//! embedding host must surface unchanged.

use vstd::prelude::*;
use vstd::string::StringExecFns;

verus! {

/// Fixed numeric identity of the effect.
#[derive(Clone, Copy, Debug, PartialEq, Eq, Structural)]
pub struct EffectInfo {
    pub unique_id: i32,
    pub inputs: i32,
    pub outputs: i32,
    pub parameters: i32,
}

/// The effect's identity: four input channels (a primary and a sidechain
/// stereo pair), two output channels, two parameters.
pub fn effect_info() -> (r: EffectInfo)
    ensures
        r.unique_id == 20210808,
        r.inputs == 4,
        r.outputs == 2,
        r.parameters == 2,
{
    EffectInfo { unique_id: 20210808, inputs: 4, outputs: 2, parameters: 2 }
}

/// The effect's name.
pub fn effect_name() -> (r: String)
    ensures
        r@ == "SideDist"@,
{
    String::from_str("SideDist")
}

/// The effect's category.
pub fn effect_category() -> (r: String)
    ensures
        r@ == "Effect"@,
{
    String::from_str("Effect")
}

/// Answer to a host capability query: confirmed, declined, or left open.
#[derive(Clone, Copy, Debug, PartialEq, Eq, Structural)]
pub enum Support {
    Yes,
    No,
    Maybe,
}

/// The effect declines to receive MIDI events; every other capability is
/// answered neither yes nor no, so a host should not assume it.
pub fn capability_support(receive_midi_event: bool) -> (r: Support)
    ensures
        r == (if receive_midi_event {
            Support::No
        } else {
            Support::Maybe
        }),
{
    if receive_midi_event {
        Support::No
    } else {
        Support::Maybe
    }
}

} // verus!
