//! The bridged parameters and their positions in the registry.

use vstd::prelude::*;

verus! {

/// Number of input channels whose position and send gain are bridged.
pub const CHANNELS: usize = 40;

/// Number of reverb returns whose gain is bridged.
pub const REVERBS: usize = 4;

/// Number of bridged parameters: three per channel and one per reverb.
pub const PARAMS: usize = 124;

/// The kind of a bridged parameter.
#[derive(Clone, Copy, Debug, PartialEq, Eq, Structural)]
pub enum ParamKind {
    /// Source position x on the processor, pan on the console.
    X,
    /// Source position y on the processor, width on the console.
    Y,
    /// Reverb send gain on the processor, send level on the console.
    Gain,
    /// Reverb input gain on the processor, bus fader on the console.
    ReverbGain,
}

/// A bridged parameter: a kind and a channel (or reverb) number counted from 1.
#[derive(Clone, Copy, Debug, PartialEq, Eq, Structural)]
pub struct Param {
    pub kind: ParamKind,
    pub number: usize,
}

impl Param {
    pub open spec fn valid(self) -> bool {
        match self.kind {
            ParamKind::ReverbGain => 1 <= self.number <= REVERBS,
            _ => 1 <= self.number <= CHANNELS,
        }
    }

    /// Position of the parameter in the registry: x, y and gain of channel 1,
    /// then of channel 2, and so on; the reverbs last.
    pub open spec fn index(self) -> int {
        match self.kind {
            ParamKind::X => 3 * (self.number - 1),
            ParamKind::Y => 3 * (self.number - 1) + 1,
            ParamKind::Gain => 3 * (self.number - 1) + 2,
            ParamKind::ReverbGain => 3 * CHANNELS + self.number - 1,
        }
    }

    pub fn is_valid(&self) -> (r: bool)
        ensures
            r == self.valid(),
    {
        match self.kind {
            ParamKind::ReverbGain => 1 <= self.number && self.number <= REVERBS,
            _ => 1 <= self.number && self.number <= CHANNELS,
        }
    }
}

/// The parameter at position `k` of the registry.
pub open spec fn param_at(k: int) -> Param {
    if k < 3 * CHANNELS {
        Param {
            kind: if k % 3 == 0 {
                ParamKind::X
            } else if k % 3 == 1 {
                ParamKind::Y
            } else {
                ParamKind::Gain
            },
            number: (k / 3 + 1) as usize,
        }
    } else {
        Param { kind: ParamKind::ReverbGain, number: (k - 3 * CHANNELS + 1) as usize }
    }
}

/// Valid parameters have distinct positions in the registry, and the
/// parameter at a parameter's position is that parameter.
pub proof fn lemma_index_param(p: Param)
    requires
        p.valid(),
    ensures
        0 <= p.index() < PARAMS,
        param_at(p.index()) == p,
{
}

/// Each position of the registry holds a valid parameter, whose position it is.
pub proof fn lemma_param_index(k: int)
    requires
        0 <= k < PARAMS,
    ensures
        param_at(k).valid(),
        param_at(k).index() == k,
{
}

} // verus!
