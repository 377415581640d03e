//! The parameter store: the threshold and the sidechain gain, read and
//! written by a stable integer index, with names and display text for a
//! control surface. Unknown indices degrade to safe defaults rather than
//! failing, matching a permissive host-query contract.

use vstd::prelude::*;
use vstd::string::StringExecFns;
use crate::display::{display_spec, format_two_decimals};
use crate::fixed::{norm_gain_spec, normalized_gain};
use crate::{MICRO, SIDECHAIN_GAIN_DEFAULT};

verus! {

/// The two control parameters, each in micro-units of the normalized
/// range from zero to one.
#[derive(Clone, Copy, Debug, PartialEq, Eq, Structural)]
pub struct ParamStore {
    pub threshold: i64,
    pub sidechain_gain: i64,
}

impl ParamStore {
    /// Both parameters lie in the normalized range from zero to one.
    pub open spec fn wf(self) -> bool {
        &&& 0 <= self.threshold <= MICRO
        &&& 0 <= self.sidechain_gain <= MICRO
    }

    /// Value read through an index: the threshold for zero, the
    /// sidechain gain for one, zero for any other index.
    pub open spec fn spec_get(self, index: int) -> i64 {
        if index == 0 {
            self.threshold
        } else if index == 1 {
            self.sidechain_gain
        } else {
            0
        }
    }

    /// Store after a write through an index: unknown indices leave the
    /// store unchanged.
    pub open spec fn spec_set(self, index: int, value: i64) -> ParamStore {
        if index == 0 {
            ParamStore { threshold: value, sidechain_gain: self.sidechain_gain }
        } else if index == 1 {
            ParamStore { threshold: self.threshold, sidechain_gain: value }
        } else {
            self
        }
    }

    /// Name of a parameter; the empty string for an unknown index.
    pub open spec fn name_spec(index: int) -> Seq<char> {
        if index == 0 {
            "Threshold"@
        } else if index == 1 {
            "Sidechain Gain"@
        } else {
            Seq::empty()
        }
    }

    /// Display text of a parameter: its value to two decimal places; for
    /// the sidechain gain the value shown is the normalized gain, the
    /// effective multiplier, not the raw stored parameter. The empty
    /// string for an unknown index.
    pub open spec fn display_text_spec(self, index: int) -> Seq<char> {
        if index == 0 {
            display_spec(self.threshold as int)
        } else if index == 1 {
            display_spec(norm_gain_spec(self.sidechain_gain as int))
        } else {
            Seq::empty()
        }
    }

    /// Reads the parameter behind an index; an unknown index reads as
    /// zero.
    pub fn get_value(&self, index: i32) -> (r: i64)
        ensures
            r == self.spec_get(index as int),
    {
        match index {
            0 => self.threshold,
            1 => self.sidechain_gain,
            _ => 0,
        }
    }

    /// Writes the parameter behind an index; an unknown index is silently
    /// ignored.
    pub fn set_value(&mut self, index: i32, value: i64)
        requires
            0 <= value <= MICRO,
        ensures
            *final(self) == old(self).spec_set(index as int, value),
            old(self).wf() ==> final(self).wf(),
    {
        match index {
            0 => {
                self.threshold = value;
            },
            1 => {
                self.sidechain_gain = value;
            },
            _ => {
            },
        }
    }

    /// Human-readable name of the parameter behind an index; the empty
    /// string for an unknown index.
    pub fn get_name(&self, index: i32) -> (r: String)
        ensures
            r@ == ParamStore::name_spec(index as int),
    {
        match index {
            0 => String::from_str("Threshold"),
            1 => String::from_str("Sidechain Gain"),
            _ => String::new(),
        }
    }

    /// Display text of the parameter behind an index, to two decimal
    /// places; the empty string for an unknown index.
    pub fn get_display_text(&self, index: i32) -> (r: String)
        requires
            self.wf(),
        ensures
            r@ == self.display_text_spec(index as int),
    {
        match index {
            0 => format_two_decimals(self.threshold),
            1 => {
                let ng = normalized_gain(self.sidechain_gain);
                format_two_decimals(ng)
            },
            _ => String::new(),
        }
    }
}

impl Default for ParamStore {
    /// A fresh store: threshold at one, sidechain gain at its default.
    fn default() -> (r: Self)
        ensures
            r.threshold == MICRO,
            r.sidechain_gain == SIDECHAIN_GAIN_DEFAULT,
            r.wf(),
    {
        ParamStore { threshold: MICRO, sidechain_gain: SIDECHAIN_GAIN_DEFAULT }
    }
}

/// Writing a parameter and reading the same index gives the written value
/// back, for both known indices.
pub proof fn lemma_set_get_round_trip(p: ParamStore, index: int, value: i64)
    requires
        index == 0 || index == 1,
    ensures
        p.spec_set(index, value).spec_get(index) == value,
{
}

/// An index that names no parameter reads as zero, writes through it
/// change nothing, and both its name and its display text are empty.
pub proof fn lemma_out_of_range_index(p: ParamStore, index: int, value: i64)
    requires
        index != 0,
        index != 1,
    ensures
        p.spec_get(index) == 0,
        p.spec_set(index, value) == p,
        ParamStore::name_spec(index) == Seq::<char>::empty(),
        p.display_text_spec(index) == Seq::<char>::empty(),
{
}

} // verus!
