//! Configuration decisions of the speech transmission index (STI) analysis:
//! which weighting scheme is in force and where the tone boost of the ancient
//! Chinese scheme applies.
use vstd::prelude::*;
use crate::text::str_eq;

verus! {

/// Speech transmission index analysis of impulse responses.
pub struct StiCalculator;

/// The weighting scheme of an STI analysis.
#[derive(PartialEq, Eq, Structural, Clone, Copy, Debug)]
pub enum StiMode {
    /// The standard band weights.
    Standard,
    /// Weights for ancient Chinese speech, with a boost of the tone-carrying
    /// modulation frequencies in some bands.
    AncientChinese,
}

impl StiMode {
    /// The scheme named by the configured default mode: "ancient_chinese"
    /// selects the ancient Chinese weights, any other name the standard ones.
    pub fn from_mode_name(name: &str) -> (r: StiMode)
        ensures
            r == if name@ == "ancient_chinese"@ {
                StiMode::AncientChinese
            } else {
                StiMode::Standard
            },
    {
        if str_eq(name, "ancient_chinese") {
            StiMode::AncientChinese
        } else {
            StiMode::Standard
        }
    }

    /// Whether the tone boost may apply in octave band `band`: only under the
    /// ancient Chinese scheme, and only in the bands it lists as tone-affected.
    pub fn tone_boost_band(&self, affected_bands: &Vec<usize>, band: usize) -> (r: bool)
        ensures
            r == (*self == StiMode::AncientChinese && affected_bands@.contains(band)),
    {
        match self {
            StiMode::Standard => false,
            StiMode::AncientChinese => {
                let mut i: usize = 0;
                while i < affected_bands.len()
                    invariant
                        i <= affected_bands@.len(),
                        *self is AncientChinese,
                        forall|j: int| 0 <= j < i ==> affected_bands@[j] != band,
                    decreases affected_bands@.len() - i,
                {
                    if affected_bands[i] == band {
                        assert(affected_bands@[i as int] == band);
                        assert(affected_bands@.contains(band));
                        return true;
                    }
                    i = i + 1;
                }
                assert(!affected_bands@.contains(band));
                false
            },
        }
    }
}

/// The number of bands analysed: the configured bands that have a weight.
pub fn band_count(bands: usize, weights: usize) -> (r: usize)
    ensures
        r == if bands < weights {
            bands
        } else {
            weights
        },
{
    if bands < weights {
        bands
    } else {
        weights
    }
}

} // verus!
