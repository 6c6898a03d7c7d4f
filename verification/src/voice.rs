//! Voice configuration: the engine's parameter record and the closed set
//! of named presets, each resolved to a fixed record.

use vstd::prelude::*;

verus! {

/// Base timbre identity of the engine. The engine knows exactly three.
#[derive(Clone, Copy, PartialEq, Eq, Structural, Debug)]
pub enum AqtkVoiceBase {
    F1E,
    F2E,
    M1E,
}

impl AqtkVoiceBase {
    /// Numeric identity of the base timbre as the engine's calling
    /// convention encodes it.
    pub fn engine_code(&self) -> (r: i32)
        ensures
            r == self.spec_engine_code(),
    {
        match self {
            AqtkVoiceBase::F1E => 0,
            AqtkVoiceBase::F2E => 1,
            AqtkVoiceBase::M1E => 2,
        }
    }

    /// The numeric encoding of each base timbre.
    pub open spec fn spec_engine_code(self) -> i32 {
        match self {
            AqtkVoiceBase::F1E => 0,
            AqtkVoiceBase::F2E => 1,
            AqtkVoiceBase::M1E => 2,
        }
    }
}

/// The engine's voice-parameter record. All fields are always populated;
/// the engine checks numeric ranges itself, so no range is demanded here.
#[derive(Clone, Copy, PartialEq, Eq, Structural, Debug)]
pub struct AqtkVoiceParams {
    /// Base timbre.
    pub bas: AqtkVoiceBase,
    /// Speed of speech. Documented range 50 to 300, default 100.
    pub spd: i32,
    /// Volume of speech. Documented range 0 to 300, default 100.
    pub vol: i32,
    /// Pitch of voice. Documented range 20 to 200.
    pub pit: i32,
    /// Accent strength. Documented range 0 to 200.
    pub acc: i32,
    /// Pitch adjust 1. Documented range 0 to 200, default 100.
    pub lmd: i32,
    /// Pitch adjust 2 (sampling frequency). Documented range 50 to 200,
    /// default 100.
    pub fsc: i32,
}

impl AqtkVoiceParams {
    /// Whether every field lies inside the range the engine documents.
    /// The engine enforces these internally; this is advisory only, and
    /// records outside the ranges still cross the boundary unchanged.
    pub open spec fn spec_within_documented_ranges(self) -> bool {
        &&& 50 <= self.spd <= 300
        &&& 0 <= self.vol <= 300
        &&& 20 <= self.pit <= 200
        &&& 0 <= self.acc <= 200
        &&& 0 <= self.lmd <= 200
        &&& 50 <= self.fsc <= 200
    }

    /// Checks the documented ranges of every numeric field.
    pub fn within_documented_ranges(&self) -> (r: bool)
        ensures
            r == self.spec_within_documented_ranges(),
    {
        50 <= self.spd && self.spd <= 300
            && 0 <= self.vol && self.vol <= 300
            && 20 <= self.pit && self.pit <= 200
            && 0 <= self.acc && self.acc <= 200
            && 0 <= self.lmd && self.lmd <= 200
            && 50 <= self.fsc && self.fsc <= 200
    }
}

/// A choice between the pre-tuned named voices and a caller-supplied
/// custom parameter record.
#[derive(Clone, Copy, PartialEq, Eq, Structural, Debug)]
pub enum Voice {
    Female1,
    Female2,
    Female3,
    Male1,
    Male2,
    Robot1,
    Robot2,
    Custom(AqtkVoiceParams),
}

/// The fixed parameter record each selection resolves to: a pre-tuned
/// constant record for every named preset, and the caller's own record,
/// unchanged, for a custom selection.
pub open spec fn spec_voice_params(v: Voice) -> AqtkVoiceParams {
    match v {
        Voice::Female1 => AqtkVoiceParams {
            bas: AqtkVoiceBase::F1E, spd: 100, vol: 100, pit: 100, acc: 100, lmd: 100, fsc: 100,
        },
        Voice::Female2 => AqtkVoiceParams {
            bas: AqtkVoiceBase::F2E, spd: 100, vol: 100, pit: 77, acc: 150, lmd: 100, fsc: 100,
        },
        Voice::Female3 => AqtkVoiceParams {
            bas: AqtkVoiceBase::F1E, spd: 80, vol: 100, pit: 100, acc: 100, lmd: 61, fsc: 148,
        },
        Voice::Male1 => AqtkVoiceParams {
            bas: AqtkVoiceBase::M1E, spd: 100, vol: 100, pit: 30, acc: 100, lmd: 100, fsc: 100,
        },
        Voice::Male2 => AqtkVoiceParams {
            bas: AqtkVoiceBase::M1E, spd: 105, vol: 100, pit: 45, acc: 130, lmd: 120, fsc: 100,
        },
        Voice::Robot1 => AqtkVoiceParams {
            bas: AqtkVoiceBase::M1E, spd: 100, vol: 100, pit: 30, acc: 20, lmd: 190, fsc: 100,
        },
        Voice::Robot2 => AqtkVoiceParams {
            bas: AqtkVoiceBase::F2E, spd: 70, vol: 100, pit: 50, acc: 50, lmd: 50, fsc: 180,
        },
        Voice::Custom(x) => x,
    }
}

impl Voice {
    /// Resolves the selection to its parameter record: a total, pure
    /// lookup with no failure path. Named presets yield their baked-in
    /// constant record; a custom selection yields the supplied record
    /// without clamping or other adjustment.
    pub fn voice_params(self) -> (r: AqtkVoiceParams)
        ensures
            r == spec_voice_params(self),
    {
        match self {
            Voice::Female1 => AqtkVoiceParams {
                bas: AqtkVoiceBase::F1E, spd: 100, vol: 100, pit: 100, acc: 100, lmd: 100, fsc: 100,
            },
            Voice::Female2 => AqtkVoiceParams {
                bas: AqtkVoiceBase::F2E, spd: 100, vol: 100, pit: 77, acc: 150, lmd: 100, fsc: 100,
            },
            Voice::Female3 => AqtkVoiceParams {
                bas: AqtkVoiceBase::F1E, spd: 80, vol: 100, pit: 100, acc: 100, lmd: 61, fsc: 148,
            },
            Voice::Male1 => AqtkVoiceParams {
                bas: AqtkVoiceBase::M1E, spd: 100, vol: 100, pit: 30, acc: 100, lmd: 100, fsc: 100,
            },
            Voice::Male2 => AqtkVoiceParams {
                bas: AqtkVoiceBase::M1E, spd: 105, vol: 100, pit: 45, acc: 130, lmd: 120, fsc: 100,
            },
            Voice::Robot1 => AqtkVoiceParams {
                bas: AqtkVoiceBase::M1E, spd: 100, vol: 100, pit: 30, acc: 20, lmd: 190, fsc: 100,
            },
            Voice::Robot2 => AqtkVoiceParams {
                bas: AqtkVoiceBase::F2E, spd: 70, vol: 100, pit: 50, acc: 50, lmd: 50, fsc: 180,
            },
            Voice::Custom(x) => x,
        }
    }
}

/// Resolution is deterministic: any two resolutions of the same
/// selection yield bit-identical parameter records. `voice_params`
/// promises its result equals `spec_voice_params`, so any two of its
/// results for one selection coincide.
pub proof fn lemma_voice_resolution_deterministic(v: Voice, a: AqtkVoiceParams, b: AqtkVoiceParams)
    requires
        a == spec_voice_params(v),
        b == spec_voice_params(v),
    ensures
        a == b,
{
}

/// Resolving a custom selection passes the supplied record through
/// unchanged: no clamping happens on this side of the boundary, even
/// when a field lies outside its documented range.
pub proof fn lemma_custom_passthrough(p: AqtkVoiceParams)
    ensures
        spec_voice_params(Voice::Custom(p)) == p,
{
}

} // verus!
