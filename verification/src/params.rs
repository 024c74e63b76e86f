//! Parameter layout shared by the audio engine and the editor bridge: the FX
//! rack's slot types and the keys by which the editor names the parameters.

use vstd::prelude::*;
use vstd::string::*;

use crate::text::{decimal_spec, digit_char, format_decimal, lemma_digit_char_code};

verus! {

/// Number of modular FX slots in the rack.
pub const NUM_FX_SLOTS: usize = 8;

/// Slot type of an empty slot.
pub const FX_EMPTY: i32 = 0;

/// Slot type of a two-band peaking EQ.
pub const FX_EQ: i32 = 1;

/// Slot type of a compressor.
pub const FX_COMP: i32 = 2;

/// Slot type of a distortion.
pub const FX_DIST: i32 = 3;

/// Slot type of a transient shaper.
pub const FX_TRANS: i32 = 4;

// ── Parameter keys of the editor bridge ─────────────────────────────────────

/// A parameter of one FX slot.
#[derive(PartialEq, Eq, Structural, Clone, Copy, Debug, Hash)]
pub enum FxField {
    /// Slot type (0 empty, 1 EQ, 2 compressor, 3 distortion, 4 transient shaper).
    Type,
    /// Slot switch.
    On,
    /// Generic parameter 1.
    P1,
    /// Generic parameter 2.
    P2,
    /// Generic parameter 3.
    P3,
    /// Generic parameter 4.
    P4,
    /// Generic parameter 5.
    P5,
    /// Generic parameter 6.
    P6,
}

/// Number of parameters of an FX slot.
pub const FX_FIELD_COUNT: usize = 8;

impl FxField {
    /// Position of the field within its slot's parameters.
    pub open spec fn index_spec(self) -> nat {
        match self {
            FxField::Type => 0,
            FxField::On => 1,
            FxField::P1 => 2,
            FxField::P2 => 3,
            FxField::P3 => 4,
            FxField::P4 => 5,
            FxField::P5 => 6,
            FxField::P6 => 7,
        }
    }

    /// Field at a position within a slot (meaningful below `FX_FIELD_COUNT`).
    pub open spec fn at(index: int) -> FxField {
        if index == 0 {
            FxField::Type
        } else if index == 1 {
            FxField::On
        } else if index == 2 {
            FxField::P1
        } else if index == 3 {
            FxField::P2
        } else if index == 4 {
            FxField::P3
        } else if index == 5 {
            FxField::P4
        } else if index == 6 {
            FxField::P5
        } else {
            FxField::P6
        }
    }

    /// Key suffix of the field.
    pub open spec fn suffix_spec(self) -> Seq<char> {
        match self {
            FxField::Type => "Type"@,
            FxField::On => "On"@,
            FxField::P1 => "P1"@,
            FxField::P2 => "P2"@,
            FxField::P3 => "P3"@,
            FxField::P4 => "P4"@,
            FxField::P5 => "P5"@,
            FxField::P6 => "P6"@,
        }
    }

    /// Key suffix of the field.
    pub fn suffix(self) -> (r: &'static str)
        ensures
            r@ == self.suffix_spec(),
    {
        match self {
            FxField::Type => "Type",
            FxField::On => "On",
            FxField::P1 => "P1",
            FxField::P2 => "P2",
            FxField::P3 => "P3",
            FxField::P4 => "P4",
            FxField::P5 => "P5",
            FxField::P6 => "P6",
        }
    }

    /// Field at `index` within a slot.
    pub fn from_index(index: usize) -> (r: FxField)
        requires
            index < FX_FIELD_COUNT,
        ensures
            r == Self::at(index as int),
            r.index_spec() == index,
    {
        if index == 0 {
            FxField::Type
        } else if index == 1 {
            FxField::On
        } else if index == 2 {
            FxField::P1
        } else if index == 3 {
            FxField::P2
        } else if index == 4 {
            FxField::P3
        } else if index == 5 {
            FxField::P4
        } else if index == 6 {
            FxField::P5
        } else {
            FxField::P6
        }
    }
}

/// A parameter that the editor can set.
#[derive(PartialEq, Eq, Structural, Clone, Copy, Debug, Hash)]
pub enum ParamId {
    /// Editor key `clickEnabled`.
    ClickEnabled,
    /// Editor key `clickType`.
    ClickType,
    /// Editor key `clickVolume`.
    ClickVolume,
    /// Editor key `clickPitch`.
    ClickPitch,
    /// Editor key `clickDecay`.
    ClickDecay,
    /// Editor key `clickFilterFreq`.
    ClickFilterFreq,
    /// Editor key `bodyPitchStart`.
    BodyPitchStart,
    /// Editor key `bodyPitchEnd`.
    BodyPitchEnd,
    /// Editor key `bodyPitchDecay`.
    BodyPitchDecay,
    /// Editor key `bodyPitchCurve`.
    BodyPitchCurve,
    /// Editor key `bodyWaveform`.
    BodyWaveform,
    /// Editor key `bodyDrive`.
    BodyDrive,
    /// Editor key `bodyDistortionType`.
    BodyDistortionType,
    /// Editor key `bodyDecay`.
    BodyDecay,
    /// Editor key `bodyVolume`.
    BodyVolume,
    /// Editor key `bodyTone`.
    BodyTone,
    /// Editor key `bodyResonance`.
    BodyResonance,
    /// Editor key `bodyFeedback`.
    BodyFeedback,
    /// Editor key `bodyHold`.
    BodyHold,
    /// Editor key `bodySplitFreq`.
    BodySplitFreq,
    /// Editor key `subEnabled`.
    SubEnabled,
    /// Editor key `subFrequency`.
    SubFrequency,
    /// Editor key `subVolume`.
    SubVolume,
    /// Editor key `subDecay`.
    SubDecay,
    /// Editor key `noiseEnabled`.
    NoiseEnabled,
    /// Editor key `noiseType`.
    NoiseType,
    /// Editor key `noiseVolume`.
    NoiseVolume,
    /// Editor key `noiseDecay`.
    NoiseDecay,
    /// Editor key `noiseFilterFreq`.
    NoiseFilterFreq,
    /// Editor key `clickSolo`.
    ClickSolo,
    /// Editor key `bodySolo`.
    BodySolo,
    /// Editor key `subSolo`.
    SubSolo,
    /// Editor key `noiseSolo`.
    NoiseSolo,
    /// Editor key `velToDecay`.
    VelToDecay,
    /// Editor key `velToPitch`.
    VelToPitch,
    /// Editor key `velToDrive`.
    VelToDrive,
    /// Editor key `velToClick`.
    VelToClick,
    /// A parameter of FX slot `slot`; editor key `fxSlot<slot><field>`.
    FxSlot { slot: usize, field: FxField },
    /// Editor key `masterVolume`.
    MasterVolume,
    /// Editor key `masterTuning`.
    MasterTuning,
    /// Editor key `masterOctave`.
    MasterOctave,
    /// Editor key `masterLimiter`.
    MasterLimiter,
    /// Editor key `masterLow`.
    MasterLow,
    /// Editor key `masterMid`.
    MasterMid,
    /// Editor key `masterHigh`.
    MasterHigh,
}

/// Number of parameters the editor can set.
pub const SETTABLE_PARAM_COUNT: usize = 108;

impl ParamId {
    /// The parameter exists: an FX slot index is below `NUM_FX_SLOTS`.
    pub open spec fn wf(self) -> bool {
        match self {
            ParamId::FxSlot { slot, field } => slot < NUM_FX_SLOTS,
            _ => true,
        }
    }

    /// The parameter's key in the editor's messages (camel case).
    pub open spec fn key_spec(self) -> Seq<char> {
        match self {
            ParamId::ClickEnabled => "clickEnabled"@,
            ParamId::ClickType => "clickType"@,
            ParamId::ClickVolume => "clickVolume"@,
            ParamId::ClickPitch => "clickPitch"@,
            ParamId::ClickDecay => "clickDecay"@,
            ParamId::ClickFilterFreq => "clickFilterFreq"@,
            ParamId::BodyPitchStart => "bodyPitchStart"@,
            ParamId::BodyPitchEnd => "bodyPitchEnd"@,
            ParamId::BodyPitchDecay => "bodyPitchDecay"@,
            ParamId::BodyPitchCurve => "bodyPitchCurve"@,
            ParamId::BodyWaveform => "bodyWaveform"@,
            ParamId::BodyDrive => "bodyDrive"@,
            ParamId::BodyDistortionType => "bodyDistortionType"@,
            ParamId::BodyDecay => "bodyDecay"@,
            ParamId::BodyVolume => "bodyVolume"@,
            ParamId::BodyTone => "bodyTone"@,
            ParamId::BodyResonance => "bodyResonance"@,
            ParamId::BodyFeedback => "bodyFeedback"@,
            ParamId::BodyHold => "bodyHold"@,
            ParamId::BodySplitFreq => "bodySplitFreq"@,
            ParamId::SubEnabled => "subEnabled"@,
            ParamId::SubFrequency => "subFrequency"@,
            ParamId::SubVolume => "subVolume"@,
            ParamId::SubDecay => "subDecay"@,
            ParamId::NoiseEnabled => "noiseEnabled"@,
            ParamId::NoiseType => "noiseType"@,
            ParamId::NoiseVolume => "noiseVolume"@,
            ParamId::NoiseDecay => "noiseDecay"@,
            ParamId::NoiseFilterFreq => "noiseFilterFreq"@,
            ParamId::ClickSolo => "clickSolo"@,
            ParamId::BodySolo => "bodySolo"@,
            ParamId::SubSolo => "subSolo"@,
            ParamId::NoiseSolo => "noiseSolo"@,
            ParamId::VelToDecay => "velToDecay"@,
            ParamId::VelToPitch => "velToPitch"@,
            ParamId::VelToDrive => "velToDrive"@,
            ParamId::VelToClick => "velToClick"@,
            ParamId::MasterVolume => "masterVolume"@,
            ParamId::MasterTuning => "masterTuning"@,
            ParamId::MasterOctave => "masterOctave"@,
            ParamId::MasterLimiter => "masterLimiter"@,
            ParamId::MasterLow => "masterLow"@,
            ParamId::MasterMid => "masterMid"@,
            ParamId::MasterHigh => "masterHigh"@,
            ParamId::FxSlot { slot, field } => "fxSlot"@ + decimal_spec(slot as nat) + field.suffix_spec(),
        }
    }

    /// The parameter's key in the editor's messages.
    pub fn key(self) -> (r: String)
        requires
            self.wf(),
        ensures
            r@ == self.key_spec(),
    {
        match self {
            ParamId::ClickEnabled => String::from_str("clickEnabled"),
            ParamId::ClickType => String::from_str("clickType"),
            ParamId::ClickVolume => String::from_str("clickVolume"),
            ParamId::ClickPitch => String::from_str("clickPitch"),
            ParamId::ClickDecay => String::from_str("clickDecay"),
            ParamId::ClickFilterFreq => String::from_str("clickFilterFreq"),
            ParamId::BodyPitchStart => String::from_str("bodyPitchStart"),
            ParamId::BodyPitchEnd => String::from_str("bodyPitchEnd"),
            ParamId::BodyPitchDecay => String::from_str("bodyPitchDecay"),
            ParamId::BodyPitchCurve => String::from_str("bodyPitchCurve"),
            ParamId::BodyWaveform => String::from_str("bodyWaveform"),
            ParamId::BodyDrive => String::from_str("bodyDrive"),
            ParamId::BodyDistortionType => String::from_str("bodyDistortionType"),
            ParamId::BodyDecay => String::from_str("bodyDecay"),
            ParamId::BodyVolume => String::from_str("bodyVolume"),
            ParamId::BodyTone => String::from_str("bodyTone"),
            ParamId::BodyResonance => String::from_str("bodyResonance"),
            ParamId::BodyFeedback => String::from_str("bodyFeedback"),
            ParamId::BodyHold => String::from_str("bodyHold"),
            ParamId::BodySplitFreq => String::from_str("bodySplitFreq"),
            ParamId::SubEnabled => String::from_str("subEnabled"),
            ParamId::SubFrequency => String::from_str("subFrequency"),
            ParamId::SubVolume => String::from_str("subVolume"),
            ParamId::SubDecay => String::from_str("subDecay"),
            ParamId::NoiseEnabled => String::from_str("noiseEnabled"),
            ParamId::NoiseType => String::from_str("noiseType"),
            ParamId::NoiseVolume => String::from_str("noiseVolume"),
            ParamId::NoiseDecay => String::from_str("noiseDecay"),
            ParamId::NoiseFilterFreq => String::from_str("noiseFilterFreq"),
            ParamId::ClickSolo => String::from_str("clickSolo"),
            ParamId::BodySolo => String::from_str("bodySolo"),
            ParamId::SubSolo => String::from_str("subSolo"),
            ParamId::NoiseSolo => String::from_str("noiseSolo"),
            ParamId::VelToDecay => String::from_str("velToDecay"),
            ParamId::VelToPitch => String::from_str("velToPitch"),
            ParamId::VelToDrive => String::from_str("velToDrive"),
            ParamId::VelToClick => String::from_str("velToClick"),
            ParamId::MasterVolume => String::from_str("masterVolume"),
            ParamId::MasterTuning => String::from_str("masterTuning"),
            ParamId::MasterOctave => String::from_str("masterOctave"),
            ParamId::MasterLimiter => String::from_str("masterLimiter"),
            ParamId::MasterLow => String::from_str("masterLow"),
            ParamId::MasterMid => String::from_str("masterMid"),
            ParamId::MasterHigh => String::from_str("masterHigh"),
            ParamId::FxSlot { slot, field } => {
                let mut s = String::from_str("fxSlot");
                let digits = format_decimal(slot);
                s.append(digits.as_str());
                s.append(field.suffix());
                s
            },
        }
    }
}

/// Settable parameters that are not in the FX rack and come before it.
pub open spec fn leading_params() -> Seq<ParamId> {
    seq![
        ParamId::ClickEnabled,
        ParamId::ClickType,
        ParamId::ClickVolume,
        ParamId::ClickPitch,
        ParamId::ClickDecay,
        ParamId::ClickFilterFreq,
        ParamId::BodyPitchStart,
        ParamId::BodyPitchEnd,
        ParamId::BodyPitchDecay,
        ParamId::BodyPitchCurve,
        ParamId::BodyWaveform,
        ParamId::BodyDrive,
        ParamId::BodyDistortionType,
        ParamId::BodyDecay,
        ParamId::BodyVolume,
        ParamId::BodyTone,
        ParamId::BodyResonance,
        ParamId::BodyFeedback,
        ParamId::BodyHold,
        ParamId::BodySplitFreq,
        ParamId::SubEnabled,
        ParamId::SubFrequency,
        ParamId::SubVolume,
        ParamId::SubDecay,
        ParamId::NoiseEnabled,
        ParamId::NoiseType,
        ParamId::NoiseVolume,
        ParamId::NoiseDecay,
        ParamId::NoiseFilterFreq,
        ParamId::ClickSolo,
        ParamId::BodySolo,
        ParamId::SubSolo,
        ParamId::NoiseSolo,
        ParamId::VelToDecay,
        ParamId::VelToPitch,
        ParamId::VelToDrive,
        ParamId::VelToClick
    ]
}

/// Settable parameters that are not in the FX rack and come after it.
pub open spec fn trailing_params() -> Seq<ParamId> {
    seq![
        ParamId::MasterVolume,
        ParamId::MasterTuning,
        ParamId::MasterOctave,
        ParamId::MasterLimiter,
        ParamId::MasterLow,
        ParamId::MasterMid,
        ParamId::MasterHigh
    ]
}

/// The FX slot parameters, slot by slot, each slot's fields in order.
pub open spec fn fx_params() -> Seq<ParamId> {
    Seq::new(
        (NUM_FX_SLOTS * FX_FIELD_COUNT) as nat,
        |k: int| ParamId::FxSlot { slot: (k / 8) as usize, field: FxField::at(k % 8) },
    )
}

/// Every parameter the editor can set, in table order.
pub open spec fn settable_params() -> Seq<ParamId> {
    leading_params() + fx_params() + trailing_params()
}
/// The fixed (non-FX) parameter whose key matches `s` at its length and at
/// positions 0, 7 and 9; these features tell the fixed keys apart.
pub open spec fn fixed_param_by_features(s: Seq<char>) -> Option<ParamId> {
    if s.len() == 12 && s[0] == 'c' && s[7] == 'a' && s[9] == 'l' {
        Some(ParamId::ClickEnabled)
    } else if s.len() == 9 && s[0] == 'c' && s[7] == 'p' {
        Some(ParamId::ClickType)
    } else if s.len() == 11 && s[0] == 'c' && s[7] == 'l' && s[9] == 'm' {
        Some(ParamId::ClickVolume)
    } else if s.len() == 10 && s[0] == 'c' && s[7] == 't' && s[9] == 'h' {
        Some(ParamId::ClickPitch)
    } else if s.len() == 10 && s[0] == 'c' && s[7] == 'c' && s[9] == 'y' {
        Some(ParamId::ClickDecay)
    } else if s.len() == 15 && s[0] == 'c' && s[7] == 'l' && s[9] == 'e' {
        Some(ParamId::ClickFilterFreq)
    } else if s.len() == 14 && s[0] == 'b' && s[7] == 'c' && s[9] == 'S' {
        Some(ParamId::BodyPitchStart)
    } else if s.len() == 12 && s[0] == 'b' && s[7] == 'c' && s[9] == 'E' {
        Some(ParamId::BodyPitchEnd)
    } else if s.len() == 14 && s[0] == 'b' && s[7] == 'c' && s[9] == 'D' {
        Some(ParamId::BodyPitchDecay)
    } else if s.len() == 14 && s[0] == 'b' && s[7] == 'c' && s[9] == 'C' {
        Some(ParamId::BodyPitchCurve)
    } else if s.len() == 12 && s[0] == 'b' && s[7] == 'e' && s[9] == 'o' {
        Some(ParamId::BodyWaveform)
    } else if s.len() == 9 && s[0] == 'b' && s[7] == 'v' {
        Some(ParamId::BodyDrive)
    } else if s.len() == 18 && s[0] == 'b' && s[7] == 't' && s[9] == 'r' {
        Some(ParamId::BodyDistortionType)
    } else if s.len() == 9 && s[0] == 'b' && s[7] == 'a' {
        Some(ParamId::BodyDecay)
    } else if s.len() == 10 && s[0] == 'b' && s[7] == 'u' && s[9] == 'e' {
        Some(ParamId::BodyVolume)
    } else if s.len() == 8 && s[0] == 'b' && s[7] == 'e' {
        Some(ParamId::BodyTone)
    } else if s.len() == 13 && s[0] == 'b' && s[7] == 'o' && s[9] == 'a' {
        Some(ParamId::BodyResonance)
    } else if s.len() == 12 && s[0] == 'b' && s[7] == 'd' && s[9] == 'a' {
        Some(ParamId::BodyFeedback)
    } else if s.len() == 8 && s[0] == 'b' && s[7] == 'd' {
        Some(ParamId::BodyHold)
    } else if s.len() == 13 && s[0] == 'b' && s[7] == 'i' && s[9] == 'F' {
        Some(ParamId::BodySplitFreq)
    } else if s.len() == 10 && s[0] == 's' && s[7] == 'l' && s[9] == 'd' {
        Some(ParamId::SubEnabled)
    } else if s.len() == 12 && s[0] == 's' && s[7] == 'u' && s[9] == 'n' {
        Some(ParamId::SubFrequency)
    } else if s.len() == 9 && s[0] == 's' && s[7] == 'm' {
        Some(ParamId::SubVolume)
    } else if s.len() == 8 && s[0] == 's' && s[7] == 'y' {
        Some(ParamId::SubDecay)
    } else if s.len() == 12 && s[0] == 'n' && s[7] == 'a' && s[9] == 'l' {
        Some(ParamId::NoiseEnabled)
    } else if s.len() == 9 && s[0] == 'n' && s[7] == 'p' {
        Some(ParamId::NoiseType)
    } else if s.len() == 11 && s[0] == 'n' && s[7] == 'l' && s[9] == 'm' {
        Some(ParamId::NoiseVolume)
    } else if s.len() == 10 && s[0] == 'n' && s[7] == 'c' && s[9] == 'y' {
        Some(ParamId::NoiseDecay)
    } else if s.len() == 15 && s[0] == 'n' && s[7] == 'l' && s[9] == 'e' {
        Some(ParamId::NoiseFilterFreq)
    } else if s.len() == 9 && s[0] == 'c' && s[7] == 'l' {
        Some(ParamId::ClickSolo)
    } else if s.len() == 8 && s[0] == 'b' && s[7] == 'o' {
        Some(ParamId::BodySolo)
    } else if s.len() == 7 && s[0] == 's' {
        Some(ParamId::SubSolo)
    } else if s.len() == 9 && s[0] == 'n' && s[7] == 'l' {
        Some(ParamId::NoiseSolo)
    } else if s.len() == 10 && s[0] == 'v' && s[7] == 'c' && s[9] == 'y' {
        Some(ParamId::VelToDecay)
    } else if s.len() == 10 && s[0] == 'v' && s[7] == 't' && s[9] == 'h' {
        Some(ParamId::VelToPitch)
    } else if s.len() == 10 && s[0] == 'v' && s[7] == 'i' && s[9] == 'e' {
        Some(ParamId::VelToDrive)
    } else if s.len() == 10 && s[0] == 'v' && s[7] == 'i' && s[9] == 'k' {
        Some(ParamId::VelToClick)
    } else if s.len() == 12 && s[0] == 'm' && s[7] == 'o' && s[9] == 'u' {
        Some(ParamId::MasterVolume)
    } else if s.len() == 12 && s[0] == 'm' && s[7] == 'u' && s[9] == 'i' {
        Some(ParamId::MasterTuning)
    } else if s.len() == 12 && s[0] == 'm' && s[7] == 'c' && s[9] == 'a' {
        Some(ParamId::MasterOctave)
    } else if s.len() == 13 && s[0] == 'm' && s[7] == 'i' && s[9] == 'i' {
        Some(ParamId::MasterLimiter)
    } else if s.len() == 9 && s[0] == 'm' && s[7] == 'o' {
        Some(ParamId::MasterLow)
    } else if s.len() == 9 && s[0] == 'm' && s[7] == 'i' {
        Some(ParamId::MasterMid)
    } else if s.len() == 10 && s[0] == 'm' && s[7] == 'i' && s[9] == 'h' {
        Some(ParamId::MasterHigh)
    } else {
        None
    }
}

/// A fixed (non-FX) parameter is recognised from the features of its key,
/// and its key does not start with `f`.
proof fn lemma_fixed_key_features(p: ParamId)
    requires
        !(p is FxSlot),
    ensures
        fixed_param_by_features(p.key_spec()) == Some(p),
        p.key_spec().len() > 6,
        p.key_spec()[0] != 'f',
{
    match p {
            ParamId::ClickEnabled => {
                reveal_strlit("clickEnabled");
            },
            ParamId::ClickType => {
                reveal_strlit("clickType");
            },
            ParamId::ClickVolume => {
                reveal_strlit("clickVolume");
            },
            ParamId::ClickPitch => {
                reveal_strlit("clickPitch");
            },
            ParamId::ClickDecay => {
                reveal_strlit("clickDecay");
            },
            ParamId::ClickFilterFreq => {
                reveal_strlit("clickFilterFreq");
            },
            ParamId::BodyPitchStart => {
                reveal_strlit("bodyPitchStart");
            },
            ParamId::BodyPitchEnd => {
                reveal_strlit("bodyPitchEnd");
            },
            ParamId::BodyPitchDecay => {
                reveal_strlit("bodyPitchDecay");
            },
            ParamId::BodyPitchCurve => {
                reveal_strlit("bodyPitchCurve");
            },
            ParamId::BodyWaveform => {
                reveal_strlit("bodyWaveform");
            },
            ParamId::BodyDrive => {
                reveal_strlit("bodyDrive");
            },
            ParamId::BodyDistortionType => {
                reveal_strlit("bodyDistortionType");
            },
            ParamId::BodyDecay => {
                reveal_strlit("bodyDecay");
            },
            ParamId::BodyVolume => {
                reveal_strlit("bodyVolume");
            },
            ParamId::BodyTone => {
                reveal_strlit("bodyTone");
            },
            ParamId::BodyResonance => {
                reveal_strlit("bodyResonance");
            },
            ParamId::BodyFeedback => {
                reveal_strlit("bodyFeedback");
            },
            ParamId::BodyHold => {
                reveal_strlit("bodyHold");
            },
            ParamId::BodySplitFreq => {
                reveal_strlit("bodySplitFreq");
            },
            ParamId::SubEnabled => {
                reveal_strlit("subEnabled");
            },
            ParamId::SubFrequency => {
                reveal_strlit("subFrequency");
            },
            ParamId::SubVolume => {
                reveal_strlit("subVolume");
            },
            ParamId::SubDecay => {
                reveal_strlit("subDecay");
            },
            ParamId::NoiseEnabled => {
                reveal_strlit("noiseEnabled");
            },
            ParamId::NoiseType => {
                reveal_strlit("noiseType");
            },
            ParamId::NoiseVolume => {
                reveal_strlit("noiseVolume");
            },
            ParamId::NoiseDecay => {
                reveal_strlit("noiseDecay");
            },
            ParamId::NoiseFilterFreq => {
                reveal_strlit("noiseFilterFreq");
            },
            ParamId::ClickSolo => {
                reveal_strlit("clickSolo");
            },
            ParamId::BodySolo => {
                reveal_strlit("bodySolo");
            },
            ParamId::SubSolo => {
                reveal_strlit("subSolo");
            },
            ParamId::NoiseSolo => {
                reveal_strlit("noiseSolo");
            },
            ParamId::VelToDecay => {
                reveal_strlit("velToDecay");
            },
            ParamId::VelToPitch => {
                reveal_strlit("velToPitch");
            },
            ParamId::VelToDrive => {
                reveal_strlit("velToDrive");
            },
            ParamId::VelToClick => {
                reveal_strlit("velToClick");
            },
            ParamId::MasterVolume => {
                reveal_strlit("masterVolume");
            },
            ParamId::MasterTuning => {
                reveal_strlit("masterTuning");
            },
            ParamId::MasterOctave => {
                reveal_strlit("masterOctave");
            },
            ParamId::MasterLimiter => {
                reveal_strlit("masterLimiter");
            },
            ParamId::MasterLow => {
                reveal_strlit("masterLow");
            },
            ParamId::MasterMid => {
                reveal_strlit("masterMid");
            },
            ParamId::MasterHigh => {
                reveal_strlit("masterHigh");
            },
            ParamId::FxSlot { .. } => {},
    }
}

/// Shape of an FX slot parameter's key: `fxSlot`, the slot's digit, then
/// the field's suffix.
proof fn lemma_fx_key_shape(slot: usize, field: FxField)
    requires
        slot < NUM_FX_SLOTS,
    ensures
        ({
            let k = (ParamId::FxSlot { slot, field }).key_spec();
            &&& k.len() > 6
            &&& k[0] == 'f'
            &&& k[6] == digit_char(slot as nat)
            &&& k.skip(7) == field.suffix_spec()
        }),
{
    reveal_strlit("fxSlot");
    let k = (ParamId::FxSlot { slot, field }).key_spec();
    assert(decimal_spec(slot as nat) == seq![digit_char(slot as nat)]);
    assert(k.skip(7) =~= field.suffix_spec());
}

/// The field whose key suffix matches `s` at its length and its first two
/// characters; these features tell the suffixes apart.
pub open spec fn field_by_suffix_features(s: Seq<char>) -> FxField {
    if s.len() == 4 {
        FxField::Type
    } else if s[0] == 'O' {
        FxField::On
    } else if s[1] == '1' {
        FxField::P1
    } else if s[1] == '2' {
        FxField::P2
    } else if s[1] == '3' {
        FxField::P3
    } else if s[1] == '4' {
        FxField::P4
    } else if s[1] == '5' {
        FxField::P5
    } else {
        FxField::P6
    }
}

/// A field is recognised from the features of its key suffix.
proof fn lemma_suffix_features(f: FxField)
    ensures
        field_by_suffix_features(f.suffix_spec()) == f,
{
    match f {
        FxField::Type => {
            reveal_strlit("Type");
        },
        FxField::On => {
            reveal_strlit("On");
        },
        FxField::P1 => {
            reveal_strlit("P1");
        },
        FxField::P2 => {
            reveal_strlit("P2");
        },
        FxField::P3 => {
            reveal_strlit("P3");
        },
        FxField::P4 => {
            reveal_strlit("P4");
        },
        FxField::P5 => {
            reveal_strlit("P5");
        },
        FxField::P6 => {
            reveal_strlit("P6");
        },
    }
}

/// Distinct fields have distinct key suffixes.
proof fn lemma_suffix_distinct(f: FxField, g: FxField)
    requires
        f.suffix_spec() == g.suffix_spec(),
    ensures
        f == g,
{
    lemma_suffix_features(f);
    lemma_suffix_features(g);
}

/// Each key names exactly one parameter: two settable parameters with the
/// same key are the same parameter.
pub proof fn lemma_param_keys_distinct(a: ParamId, b: ParamId)
    requires
        a.wf(),
        b.wf(),
        a.key_spec() == b.key_spec(),
    ensures
        a == b,
{
    match a {
        ParamId::FxSlot { slot: sa, field: fa } => {
            lemma_fx_key_shape(sa, fa);
            match b {
                ParamId::FxSlot { slot: sb, field: fb } => {
                    lemma_fx_key_shape(sb, fb);
                    assert(digit_char(sa as nat) == digit_char(sb as nat));
                    assert(sa == sb);
                    lemma_suffix_distinct(fa, fb);
                },
                _ => {
                    lemma_fixed_key_features(b);
                },
            }
        },
        _ => {
            lemma_fixed_key_features(a);
            match b {
                ParamId::FxSlot { slot: sb, field: fb } => {
                    lemma_fx_key_shape(sb, fb);
                },
                _ => {
                    lemma_fixed_key_features(b);
                },
            }
        },
    }
}

/// Every settable parameter is a parameter that exists.
pub proof fn lemma_settable_params_wf()
    ensures
        forall|i: int| 0 <= i < settable_params().len() ==> (#[trigger] settable_params()[i]).wf(),
{
    assert forall|i: int| 0 <= i < settable_params().len() implies (#[trigger] settable_params()[i]).wf() by {
        if 37 <= i < 101 {
            assert(settable_params()[i] == fx_params()[i - 37]);
            assert((i - 37) / 8 < 8);
        }
    }
}

/// Every parameter that exists is settable from the editor, at a known
/// position of the table.
pub proof fn lemma_settable_params_complete(id: ParamId)
    requires
        id.wf(),
    ensures
        settable_params().contains(id),
{
    let t = settable_params();
    match id {
        ParamId::FxSlot { slot, field } => {
            let k = (slot * 8 + field.index_spec()) as int;
            assert(k / 8 == slot as int && k % 8 == field.index_spec()) by (nonlinear_arith)
                requires
                    k == slot * 8 + field.index_spec(),
                    field.index_spec() < 8,
            ;
            assert(FxField::at(field.index_spec() as int) == field);
            assert(t[37 + k] == fx_params()[k]);
            assert(t[37 + k] == id);
        },
        _ => {
            assert(leading_params().contains(id) || trailing_params().contains(id)) by {
                match id {
                    ParamId::ClickEnabled => { assert(leading_params()[0] == id); },
                    ParamId::ClickType => { assert(leading_params()[1] == id); },
                    ParamId::ClickVolume => { assert(leading_params()[2] == id); },
                    ParamId::ClickPitch => { assert(leading_params()[3] == id); },
                    ParamId::ClickDecay => { assert(leading_params()[4] == id); },
                    ParamId::ClickFilterFreq => { assert(leading_params()[5] == id); },
                    ParamId::BodyPitchStart => { assert(leading_params()[6] == id); },
                    ParamId::BodyPitchEnd => { assert(leading_params()[7] == id); },
                    ParamId::BodyPitchDecay => { assert(leading_params()[8] == id); },
                    ParamId::BodyPitchCurve => { assert(leading_params()[9] == id); },
                    ParamId::BodyWaveform => { assert(leading_params()[10] == id); },
                    ParamId::BodyDrive => { assert(leading_params()[11] == id); },
                    ParamId::BodyDistortionType => { assert(leading_params()[12] == id); },
                    ParamId::BodyDecay => { assert(leading_params()[13] == id); },
                    ParamId::BodyVolume => { assert(leading_params()[14] == id); },
                    ParamId::BodyTone => { assert(leading_params()[15] == id); },
                    ParamId::BodyResonance => { assert(leading_params()[16] == id); },
                    ParamId::BodyFeedback => { assert(leading_params()[17] == id); },
                    ParamId::BodyHold => { assert(leading_params()[18] == id); },
                    ParamId::BodySplitFreq => { assert(leading_params()[19] == id); },
                    ParamId::SubEnabled => { assert(leading_params()[20] == id); },
                    ParamId::SubFrequency => { assert(leading_params()[21] == id); },
                    ParamId::SubVolume => { assert(leading_params()[22] == id); },
                    ParamId::SubDecay => { assert(leading_params()[23] == id); },
                    ParamId::NoiseEnabled => { assert(leading_params()[24] == id); },
                    ParamId::NoiseType => { assert(leading_params()[25] == id); },
                    ParamId::NoiseVolume => { assert(leading_params()[26] == id); },
                    ParamId::NoiseDecay => { assert(leading_params()[27] == id); },
                    ParamId::NoiseFilterFreq => { assert(leading_params()[28] == id); },
                    ParamId::ClickSolo => { assert(leading_params()[29] == id); },
                    ParamId::BodySolo => { assert(leading_params()[30] == id); },
                    ParamId::SubSolo => { assert(leading_params()[31] == id); },
                    ParamId::NoiseSolo => { assert(leading_params()[32] == id); },
                    ParamId::VelToDecay => { assert(leading_params()[33] == id); },
                    ParamId::VelToPitch => { assert(leading_params()[34] == id); },
                    ParamId::VelToDrive => { assert(leading_params()[35] == id); },
                    ParamId::VelToClick => { assert(leading_params()[36] == id); },
                    ParamId::MasterVolume => { assert(trailing_params()[0] == id); },
                    ParamId::MasterTuning => { assert(trailing_params()[1] == id); },
                    ParamId::MasterOctave => { assert(trailing_params()[2] == id); },
                    ParamId::MasterLimiter => { assert(trailing_params()[3] == id); },
                    ParamId::MasterLow => { assert(trailing_params()[4] == id); },
                    ParamId::MasterMid => { assert(trailing_params()[5] == id); },
                    ParamId::MasterHigh => { assert(trailing_params()[6] == id); },
                    ParamId::FxSlot { .. } => {},
                }
            }
            if leading_params().contains(id) {
                let i = choose|i: int| 0 <= i < leading_params().len() && leading_params()[i] == id;
                assert(t[i] == id);
            } else {
                let i = choose|i: int| 0 <= i < trailing_params().len() && trailing_params()[i] == id;
                assert(t[101 + i] == id);
            }
        },
    }
}

/// The table of settable parameters, in the order the editor bridge lists
/// them: the fixed parameters before the rack, the rack slot by slot, then
/// the master parameters.
pub fn settable_param_ids() -> (r: Vec<ParamId>)
    ensures
        r@ == settable_params(),
        r@.len() == SETTABLE_PARAM_COUNT,
{
    let mut v: Vec<ParamId> = Vec::new();
    v.push(ParamId::ClickEnabled);
    v.push(ParamId::ClickType);
    v.push(ParamId::ClickVolume);
    v.push(ParamId::ClickPitch);
    v.push(ParamId::ClickDecay);
    v.push(ParamId::ClickFilterFreq);
    v.push(ParamId::BodyPitchStart);
    v.push(ParamId::BodyPitchEnd);
    v.push(ParamId::BodyPitchDecay);
    v.push(ParamId::BodyPitchCurve);
    v.push(ParamId::BodyWaveform);
    v.push(ParamId::BodyDrive);
    v.push(ParamId::BodyDistortionType);
    v.push(ParamId::BodyDecay);
    v.push(ParamId::BodyVolume);
    v.push(ParamId::BodyTone);
    v.push(ParamId::BodyResonance);
    v.push(ParamId::BodyFeedback);
    v.push(ParamId::BodyHold);
    v.push(ParamId::BodySplitFreq);
    v.push(ParamId::SubEnabled);
    v.push(ParamId::SubFrequency);
    v.push(ParamId::SubVolume);
    v.push(ParamId::SubDecay);
    v.push(ParamId::NoiseEnabled);
    v.push(ParamId::NoiseType);
    v.push(ParamId::NoiseVolume);
    v.push(ParamId::NoiseDecay);
    v.push(ParamId::NoiseFilterFreq);
    v.push(ParamId::ClickSolo);
    v.push(ParamId::BodySolo);
    v.push(ParamId::SubSolo);
    v.push(ParamId::NoiseSolo);
    v.push(ParamId::VelToDecay);
    v.push(ParamId::VelToPitch);
    v.push(ParamId::VelToDrive);
    v.push(ParamId::VelToClick);
    assert(v@ =~= leading_params());
    let mut slot: usize = 0;
    while slot < NUM_FX_SLOTS
        invariant
            slot <= NUM_FX_SLOTS,
            v@ =~= leading_params() + fx_params().take(slot * 8),
        decreases NUM_FX_SLOTS - slot,
    {
        let mut f: usize = 0;
        while f < FX_FIELD_COUNT
            invariant
                slot < NUM_FX_SLOTS,
                f <= FX_FIELD_COUNT,
                v@ =~= leading_params() + fx_params().take(slot * 8 + f),
            decreases FX_FIELD_COUNT - f,
        {
            let field = FxField::from_index(f);
            let ghost k = (slot * 8 + f) as int;
            assert(k / 8 == slot as int && k % 8 == f as int) by (nonlinear_arith)
                requires
                    k == slot * 8 + f,
                    f < 8,
            ;
            assert(fx_params()[k] == ParamId::FxSlot { slot, field });
            assert(fx_params().take(k + 1) =~= fx_params().take(k).push(fx_params()[k]));
            v.push(ParamId::FxSlot { slot, field });
            f = f + 1;
        }
        slot = slot + 1;
    }
    assert(fx_params().take(64) =~= fx_params());
    let ghost before_tail = v@;
    v.push(ParamId::MasterVolume);
    v.push(ParamId::MasterTuning);
    v.push(ParamId::MasterOctave);
    v.push(ParamId::MasterLimiter);
    v.push(ParamId::MasterLow);
    v.push(ParamId::MasterMid);
    v.push(ParamId::MasterHigh);
    assert(v@ =~= before_tail + trailing_params());
    v
}

/// The parameter named by an editor key: the parameter with exactly that
/// key, or `None` when no settable parameter has it.
pub fn param_id_from_key(key: &str) -> (r: Option<ParamId>)
    ensures
        forall|id: ParamId| id.wf() ==> ((r == Some(id)) <==> id.key_spec() == key@),
        r matches Some(id) ==> id.wf(),
{
    let ids = settable_param_ids();
    let wanted = String::from_str(key);
    proof {
        lemma_settable_params_wf();
    }
    let mut i: usize = 0;
    while i < ids.len()
        invariant
            ids@ == settable_params(),
            wanted@ == key@,
            i <= ids@.len(),
            forall|j: int| 0 <= j < ids@.len() ==> (#[trigger] ids@[j]).wf(),
            forall|j: int| 0 <= j < i ==> (#[trigger] ids@[j]).key_spec() != key@,
        decreases ids@.len() - i,
    {
        let id = ids[i];
        let k = id.key();
        if k == wanted {
            proof {
                assert forall|other: ParamId| other.wf() implies ((Some(id) == Some(other))
                    <==> other.key_spec() == key@) by {
                    if other.key_spec() == key@ {
                        lemma_param_keys_distinct(id, other);
                    }
                }
            }
            return Some(id);
        }
        i = i + 1;
    }
    proof {
        assert forall|other: ParamId| other.wf() implies other.key_spec() != key@ by {
            lemma_settable_params_complete(other);
            let j = choose|j: int| 0 <= j < ids@.len() && ids@[j] == other;
            assert(ids@[j].key_spec() != key@);
        }
    }
    None
}

/// No parameter appears twice in the table.
pub proof fn lemma_settable_params_distinct()
    ensures
        forall|i: int, j: int|
            0 <= i < j < settable_params().len() ==> settable_params()[i] != settable_params()[j],
{
    let t = settable_params();
    assert forall|i: int, j: int| 0 <= i < j < t.len() implies t[i] != t[j] by {
        if 37 <= i < 101 && 37 <= j < 101 {
            let a = i - 37;
            let b = j - 37;
            assert(t[i] == fx_params()[a]);
            assert(t[j] == fx_params()[b]);
            if a / 8 == b / 8 {
                assert(a % 8 != b % 8) by (nonlinear_arith)
                    requires
                        a / 8 == b / 8,
                        0 <= a < b,
                ;
                assert(FxField::at(a % 8).index_spec() == a % 8);
                assert(FxField::at(b % 8).index_spec() == b % 8);
            }
        } else if i < 37 && j < 37 {
            assert(leading_params()[i] != leading_params()[j]);
        } else if i >= 101 && j >= 101 {
            assert(trailing_params()[i - 101] != trailing_params()[j - 101]);
        }
    }
}

/// The editor bridge's keys are pairwise distinct: each of the
/// `SETTABLE_PARAM_COUNT` settable parameters has a key of its own.
pub proof fn lemma_settable_keys_distinct()
    ensures
        settable_params().len() == SETTABLE_PARAM_COUNT,
        forall|i: int, j: int|
            0 <= i < j < settable_params().len() ==> settable_params()[i].key_spec()
                != settable_params()[j].key_spec(),
{
    lemma_settable_params_wf();
    lemma_settable_params_distinct();
    let t = settable_params();
    assert forall|i: int, j: int| 0 <= i < j < t.len() implies t[i].key_spec() != t[j].key_spec() by {
        assert(t[i].wf() && t[j].wf());
        if t[i].key_spec() == t[j].key_spec() {
            lemma_param_keys_distinct(t[i], t[j]);
        }
    }
}

/// The editor keys: each fixed parameter's key is its camel-case name, and
/// the key of field `F` of FX slot `i` is `fxSlot`, the digit of `i`, then
/// `F`'s name (`Type`, `On`, `P1` to `P6`).
pub proof fn lemma_param_key_literals()
    ensures
        ParamId::ClickEnabled.key_spec() == "clickEnabled"@,
        ParamId::ClickType.key_spec() == "clickType"@,
        ParamId::ClickVolume.key_spec() == "clickVolume"@,
        ParamId::ClickPitch.key_spec() == "clickPitch"@,
        ParamId::ClickDecay.key_spec() == "clickDecay"@,
        ParamId::ClickFilterFreq.key_spec() == "clickFilterFreq"@,
        ParamId::BodyPitchStart.key_spec() == "bodyPitchStart"@,
        ParamId::BodyPitchEnd.key_spec() == "bodyPitchEnd"@,
        ParamId::BodyPitchDecay.key_spec() == "bodyPitchDecay"@,
        ParamId::BodyPitchCurve.key_spec() == "bodyPitchCurve"@,
        ParamId::BodyWaveform.key_spec() == "bodyWaveform"@,
        ParamId::BodyDrive.key_spec() == "bodyDrive"@,
        ParamId::BodyDistortionType.key_spec() == "bodyDistortionType"@,
        ParamId::BodyDecay.key_spec() == "bodyDecay"@,
        ParamId::BodyVolume.key_spec() == "bodyVolume"@,
        ParamId::BodyTone.key_spec() == "bodyTone"@,
        ParamId::BodyResonance.key_spec() == "bodyResonance"@,
        ParamId::BodyFeedback.key_spec() == "bodyFeedback"@,
        ParamId::BodyHold.key_spec() == "bodyHold"@,
        ParamId::BodySplitFreq.key_spec() == "bodySplitFreq"@,
        ParamId::SubEnabled.key_spec() == "subEnabled"@,
        ParamId::SubFrequency.key_spec() == "subFrequency"@,
        ParamId::SubVolume.key_spec() == "subVolume"@,
        ParamId::SubDecay.key_spec() == "subDecay"@,
        ParamId::NoiseEnabled.key_spec() == "noiseEnabled"@,
        ParamId::NoiseType.key_spec() == "noiseType"@,
        ParamId::NoiseVolume.key_spec() == "noiseVolume"@,
        ParamId::NoiseDecay.key_spec() == "noiseDecay"@,
        ParamId::NoiseFilterFreq.key_spec() == "noiseFilterFreq"@,
        ParamId::ClickSolo.key_spec() == "clickSolo"@,
        ParamId::BodySolo.key_spec() == "bodySolo"@,
        ParamId::SubSolo.key_spec() == "subSolo"@,
        ParamId::NoiseSolo.key_spec() == "noiseSolo"@,
        ParamId::VelToDecay.key_spec() == "velToDecay"@,
        ParamId::VelToPitch.key_spec() == "velToPitch"@,
        ParamId::VelToDrive.key_spec() == "velToDrive"@,
        ParamId::VelToClick.key_spec() == "velToClick"@,
        ParamId::MasterVolume.key_spec() == "masterVolume"@,
        ParamId::MasterTuning.key_spec() == "masterTuning"@,
        ParamId::MasterOctave.key_spec() == "masterOctave"@,
        ParamId::MasterLimiter.key_spec() == "masterLimiter"@,
        ParamId::MasterLow.key_spec() == "masterLow"@,
        ParamId::MasterMid.key_spec() == "masterMid"@,
        ParamId::MasterHigh.key_spec() == "masterHigh"@,
        forall|slot: usize|
            slot < NUM_FX_SLOTS ==> #[trigger] (ParamId::FxSlot { slot, field: FxField::Type }).key_spec()
                == "fxSlot"@ + seq![(('0' as u32) + slot) as char] + "Type"@,
        forall|slot: usize|
            slot < NUM_FX_SLOTS ==> #[trigger] (ParamId::FxSlot { slot, field: FxField::On }).key_spec()
                == "fxSlot"@ + seq![(('0' as u32) + slot) as char] + "On"@,
        forall|slot: usize|
            slot < NUM_FX_SLOTS ==> #[trigger] (ParamId::FxSlot { slot, field: FxField::P1 }).key_spec()
                == "fxSlot"@ + seq![(('0' as u32) + slot) as char] + "P1"@,
        forall|slot: usize|
            slot < NUM_FX_SLOTS ==> #[trigger] (ParamId::FxSlot { slot, field: FxField::P2 }).key_spec()
                == "fxSlot"@ + seq![(('0' as u32) + slot) as char] + "P2"@,
        forall|slot: usize|
            slot < NUM_FX_SLOTS ==> #[trigger] (ParamId::FxSlot { slot, field: FxField::P3 }).key_spec()
                == "fxSlot"@ + seq![(('0' as u32) + slot) as char] + "P3"@,
        forall|slot: usize|
            slot < NUM_FX_SLOTS ==> #[trigger] (ParamId::FxSlot { slot, field: FxField::P4 }).key_spec()
                == "fxSlot"@ + seq![(('0' as u32) + slot) as char] + "P4"@,
        forall|slot: usize|
            slot < NUM_FX_SLOTS ==> #[trigger] (ParamId::FxSlot { slot, field: FxField::P5 }).key_spec()
                == "fxSlot"@ + seq![(('0' as u32) + slot) as char] + "P5"@,
        forall|slot: usize|
            slot < NUM_FX_SLOTS ==> #[trigger] (ParamId::FxSlot { slot, field: FxField::P6 }).key_spec()
                == "fxSlot"@ + seq![(('0' as u32) + slot) as char] + "P6"@,
{
    assert forall|slot: usize, field: FxField| slot < NUM_FX_SLOTS implies #[trigger] (ParamId::FxSlot {
        slot,
        field,
    }).key_spec() == "fxSlot"@ + seq![(('0' as u32) + slot) as char] + field.suffix_spec() by {
        lemma_digit_char_code(slot as nat);
        reveal_strlit("0");
        assert(decimal_spec(slot as nat) == seq![digit_char(slot as nat)]);
        assert(digit_char(slot as nat) == (('0' as u32) + slot) as char);
    }
}

} // verus!
