//! The virtual Echo Wall experience: its playback settings and the choice of
//! the echoes that a listener hears among the traced sound paths.
use vstd::prelude::*;
use crate::select::selects;

verus! {

/// The playback mode a simulator starts with.
pub open spec fn spec_default_playback_mode() -> Seq<char> {
    "headphone"@
}

/// Renders binaural impulse responses for the virtual Echo Wall experience.
pub struct VrEchoWallSimulator {
    playback_mode: String,
    headphone_optimized: bool,
}

impl VrEchoWallSimulator {
    /// The playback mode, as a character sequence.
    pub closed spec fn spec_playback_mode(&self) -> Seq<char> {
        self.playback_mode@
    }

    /// Whether the rendering is tuned for headphones.
    pub closed spec fn spec_headphone_optimized(&self) -> bool {
        self.headphone_optimized
    }

    /// A simulator for headphone playback.
    pub fn new() -> (r: Self)
        ensures
            r.spec_playback_mode() == spec_default_playback_mode(),
            r.spec_headphone_optimized(),
    {
        VrEchoWallSimulator { playback_mode: String::from_str("headphone"), headphone_optimized: true }
    }

    /// The same simulator with playback mode `mode`.
    pub fn with_playback_mode(self, mode: &str) -> (r: Self)
        ensures
            r.spec_playback_mode() == mode@,
            r.spec_headphone_optimized() == self.spec_headphone_optimized(),
    {
        let mut s = self;
        s.playback_mode = String::from_str(mode);
        s
    }

    /// The playback mode.
    pub fn get_playback_mode(&self) -> (r: &str)
        ensures
            r@ == self.spec_playback_mode(),
    {
        self.playback_mode.as_str()
    }

    /// Whether the rendering is tuned for headphones.
    pub fn is_headphone_optimized(&self) -> (r: bool)
        ensures
            r == self.spec_headphone_optimized(),
    {
        self.headphone_optimized
    }
}

impl Default for VrEchoWallSimulator {
    /// Same as `VrEchoWallSimulator::new`.
    fn default() -> (r: Self)
        ensures
            r.spec_playback_mode() == spec_default_playback_mode(),
            r.spec_headphone_optimized(),
    {
        Self::new()
    }
}

/// How many echoes an experience reports at most.
pub const MAX_REPORTED_ECHOES: usize = 10;

/// The positions, in order, of the traced paths that reflect at least once:
/// the echoes, as opposed to the direct sound.
pub fn select_reflections(reflection_counts: &Vec<u8>) -> (r: Vec<usize>)
    ensures
        selects(r@, reflection_counts@.len(), |i: int| reflection_counts@[i] >= 1),
{
    let ghost pred = |i: int| reflection_counts@[i] >= 1;
    let mut r: Vec<usize> = Vec::new();
    let mut i: usize = 0;
    while i < reflection_counts.len()
        invariant
            i <= reflection_counts@.len(),
            pred == (|i: int| reflection_counts@[i] >= 1),
            forall|k: int| 0 <= k < r@.len() ==> (#[trigger] r@[k]) < i && pred(r@[k] as int),
            forall|k: int, l: int| 0 <= k < l < r@.len() ==> (#[trigger] r@[k]) < (#[trigger] r@[l]),
            forall|j: int| 0 <= j < i && #[trigger] pred(j) ==> r@.contains(j as usize),
        decreases reflection_counts@.len() - i,
    {
        if reflection_counts[i] >= 1 {
            let ghost before = r@;
            r.push(i);
            assert forall|j: int| 0 <= j <= i && #[trigger] pred(j) implies r@.contains(
                j as usize,
            ) by {
                if j < i {
                    let k: int = choose|k: int| 0 <= k < before.len() && before[k] == j as usize;
                    assert(r@[k] == j as usize);
                } else {
                    assert(r@[r@.len() - 1] == i);
                }
            }
        }
        i = i + 1;
    }
    r
}

/// The number of echoes reported for `reflections` reflected paths: all of
/// them, but no more than `MAX_REPORTED_ECHOES`.
pub fn echo_count(reflections: usize) -> (r: u32)
    ensures
        r == if reflections < MAX_REPORTED_ECHOES {
            reflections
        } else {
            MAX_REPORTED_ECHOES
        },
{
    if reflections < MAX_REPORTED_ECHOES {
        reflections as u32
    } else {
        MAX_REPORTED_ECHOES as u32
    }
}

} // verus!
