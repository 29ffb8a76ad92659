//! Settings of the bodies in the large screen and of the swirl, and what
//! follows from them.
use vstd::prelude::*;

verus! {

/// Number of presets that the swirl has.
pub const SWIRL_PRESET_COUNT: usize = 7;

/// Every render layer at once, as a set of bits.
pub const ALL_RENDER_LAYERS: u32 = 0xffff_ffff;

/// What the eyes do.
#[derive(Copy, Clone, Debug, PartialEq, Eq, Structural)]
pub enum EyesMode {
    /// Nothing.
    Off,
    /// They look at the viewer.
    Stare,
    /// They turn to a new side on every beat.
    Crazy,
    /// They look at the viewer and scan.
    StareScan,
}

impl Default for EyesMode {
    fn default() -> (r: EyesMode)
        ensures
            r == EyesMode::Off,
    {
        EyesMode::Off
    }
}

/// How many eyes float in the large screen, and what they do.
#[derive(Copy, Clone, Debug, PartialEq, Eq, Structural)]
pub struct PhysHexSettings {
    pub eye_count: usize,
    pub eyes_mode: EyesMode,
}

impl Default for PhysHexSettings {
    fn default() -> (r: PhysHexSettings)
        ensures
            r == (PhysHexSettings { eye_count: 0, eyes_mode: EyesMode::Off }),
    {
        PhysHexSettings { eye_count: 0, eyes_mode: EyesMode::Off }
    }
}

/// What has to be done to have as many eyes as wanted.
#[derive(Copy, Clone, Debug, PartialEq, Eq, Structural)]
pub struct EyeAdjustment {
    /// How many of the eyes that exist stay: the first ones.
    pub keep: usize,
    /// How many of the eyes that exist are taken away: the ones after those
    /// that stay.
    pub despawn: usize,
    /// How many new eyes are made.
    pub spawn: usize,
}

/// Brings the number of eyes to what the settings want: of `existing` eyes
/// the first `eye_count` stay and the rest go, and where there are fewer,
/// as many are made as are missing.
pub fn spawners_eyes(existing: usize, settings: &PhysHexSettings) -> (r: EyeAdjustment)
    ensures
        r.keep + r.despawn == existing,
        r.keep + r.spawn == settings.eye_count,
        r.despawn == 0 || r.spawn == 0,
{
    if existing > settings.eye_count {
        EyeAdjustment {
            keep: settings.eye_count,
            despawn: existing - settings.eye_count,
            spawn: 0,
        }
    } else {
        EyeAdjustment { keep: existing, despawn: 0, spawn: settings.eye_count - existing }
    }
}

/// What the beat does to the swirl.
#[derive(Copy, Clone, Debug, PartialEq, Eq, Structural)]
pub struct SwirlAutomation {
    pub preset: usize,
    pub fix_fb_rot: bool,
    pub fix_pal: bool,
}

impl Default for SwirlAutomation {
    fn default() -> (r: SwirlAutomation)
        ensures
            r == (SwirlAutomation { preset: 0, fix_fb_rot: false, fix_pal: false }),
    {
        SwirlAutomation { preset: 0, fix_fb_rot: false, fix_pal: false }
    }
}

impl SwirlAutomation {
    /// The preset that the swirl takes on the beat: the chosen one where
    /// there is such a preset, else the first.
    pub fn swirl_beat(&self) -> (preset: usize)
        ensures
            preset == if self.preset < SWIRL_PRESET_COUNT {
                self.preset
            } else {
                0
            },
            preset < SWIRL_PRESET_COUNT,
    {
        if self.preset < SWIRL_PRESET_COUNT {
            self.preset
        } else {
            0
        }
    }
}

/// The render layers that an entity is to have: its own where it has some
/// to hand down, else those handed down to it, else all.
pub fn recursive_propagate_render_layers(own: Option<u32>, handed_down: Option<u32>) -> (layers: u32)
    ensures
        layers == match own {
            Some(layers) => layers,
            None => match handed_down {
                Some(layers) => layers,
                None => ALL_RENDER_LAYERS,
            },
        },
{
    match own {
        Some(layers) => layers,
        None => match handed_down {
            Some(layers) => layers,
            None => ALL_RENDER_LAYERS,
        },
    }
}

} // verus!
