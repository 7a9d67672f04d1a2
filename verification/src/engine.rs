//! Configuration rules of the real-time engine: which EQ slots filter and
//! which spatial stage runs. The engine applies them whenever it picks up a
//! new configuration; the per-sample arithmetic follows the plan they give.
use vstd::prelude::*;
use crate::config::{PeqBand, SpatialMode};

verus! {

/// Number of EQ filter slots per channel.
pub const MAX_BANDS: usize = 10;

/// Ring size, in samples, of each crossfeed cross-path delay line.
pub const MAX_DELAY: usize = 384;

/// Ring size, in samples, of each HRTF far-ear (ITD) delay line.
pub const MAX_ITD: usize = 128;

/// Whether slot `i` of the engine filters with band `i` of `peq`: the band
/// exists, lies within the first [`MAX_BANDS`] bands and is enabled.
pub open spec fn slot_band<F>(peq: Seq<PeqBand<F>>, i: int) -> Option<PeqBand<F>> {
    if 0 <= i < peq.len() && i < MAX_BANDS && peq[i].enabled {
        Some(peq[i])
    } else {
        None
    }
}

/// Number of EQ slots the engine runs for `len` configured bands: all of
/// them, up to [`MAX_BANDS`].
pub fn active_band_count(len: usize) -> (n: usize)
    ensures
        n == if len < MAX_BANDS { len } else { MAX_BANDS },
{
    if len < MAX_BANDS {
        len
    } else {
        MAX_BANDS
    }
}

/// The band that EQ slot `i` filters with, or `None` for a pass-through
/// slot: a disabled band, or no band at that index.
pub fn band_slot<F: Copy>(peq: &Vec<PeqBand<F>>, i: usize) -> (b: Option<PeqBand<F>>)
    requires
        i < MAX_BANDS,
    ensures
        b == slot_band(peq@, i as int),
        i < peq@.len() && peq@[i as int].enabled ==> b == Some(peq@[i as int]),
        !(i < peq@.len() && peq@[i as int].enabled) ==> b is None,
{
    if i < peq.len() && peq[i].enabled {
        Some(peq[i])
    } else {
        None
    }
}

/// Slot `i` of the EQ cascade filters with band `i` itself (never another
/// band) exactly when that band exists and is enabled; every other slot, and
/// every slot past [`MAX_BANDS`], passes the signal through.
pub proof fn lemma_slot_i_uses_band_i<F>(peq: Seq<PeqBand<F>>, i: int)
    ensures
        (0 <= i < MAX_BANDS && i < peq.len() && peq[i].enabled) ==> slot_band(peq, i) == Some(
            peq[i],
        ),
        !(0 <= i < MAX_BANDS && i < peq.len() && peq[i].enabled) ==> slot_band(peq, i) is None,
        slot_band(peq, i) matches Some(b) ==> b.freq == peq[i].freq && b.gain_db == peq[i].gain_db
            && b.q == peq[i].q && b.filter_type == peq[i].filter_type && b.enabled,
{
}

/// The spatial stage that runs after the EQ.
#[derive(Debug, Clone, Copy, PartialEq, Eq, Structural)]
pub enum SpatialStage {
    /// Straight stereo.
    Passthrough,
    /// BS2B crossfeed.
    Crossfeed,
    /// HRTF binaural rendering.
    Hrtf,
}

/// Chooses the spatial stage: the mode picks it, and the crossfeed stage
/// also needs the crossfeed's own `enabled` toggle; without it the signal
/// passes straight through.
pub fn spatial_stage(mode: SpatialMode, crossfeed_enabled: bool) -> (s: SpatialStage)
    ensures
        mode == SpatialMode::Off ==> s == SpatialStage::Passthrough,
        mode == SpatialMode::Crossfeed ==> s == (if crossfeed_enabled {
            SpatialStage::Crossfeed
        } else {
            SpatialStage::Passthrough
        }),
        mode == SpatialMode::Hrtf ==> s == SpatialStage::Hrtf,
{
    match mode {
        SpatialMode::Off => SpatialStage::Passthrough,
        SpatialMode::Crossfeed => if crossfeed_enabled {
            SpatialStage::Crossfeed
        } else {
            SpatialStage::Passthrough
        },
        SpatialMode::Hrtf => SpatialStage::Hrtf,
    }
}

} // verus!
