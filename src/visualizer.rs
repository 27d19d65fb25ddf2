//! The audio visualizer's state: whether it runs, and the shape of the
//! frames it produces. The band levels themselves are computed by the caller.

use vstd::prelude::*;

verus! {

/// The number of bands of the placeholder frame.
pub const DEFAULT_BAND_COUNT: usize = 32;

/// The sample rate every frame reports.
pub const SAMPLE_RATE: u32 = 44100;

/// What the next frame looks like.
#[derive(Debug, Clone, Copy, PartialEq, Eq, Structural)]
pub enum FrameKind {
    /// All `DEFAULT_BAND_COUNT` bands at zero: the visualizer is not running.
    Silent,
    /// This many animated bands.
    Animated(usize),
}

pub struct AudioVisualizer {
    enabled: bool,
    band_count: usize,
}

impl AudioVisualizer {
    pub closed spec fn spec_enabled(&self) -> bool {
        self.enabled
    }

    pub closed spec fn spec_band_count(&self) -> usize {
        self.band_count
    }

    /// A visualizer of `band_count` bands, not yet running.
    pub fn new(band_count: usize) -> (r: AudioVisualizer)
        ensures
            !r.spec_enabled(),
            r.spec_band_count() == band_count,
    {
        AudioVisualizer { enabled: false, band_count }
    }

    /// Starts the visualizer. It cannot fail.
    pub fn initialize(&mut self) -> (r: Result<(), String>)
        ensures
            r is Ok,
            final(self).spec_enabled(),
            final(self).spec_band_count() == old(self).spec_band_count(),
    {
        self.enabled = true;
        Ok(())
    }

    pub fn is_enabled(&self) -> (r: bool)
        ensures
            r == self.spec_enabled(),
    {
        self.enabled
    }

    pub fn band_count(&self) -> (r: usize)
        ensures
            r == self.spec_band_count(),
    {
        self.band_count
    }

    /// A running visualizer animates its bands; one that is not running
    /// gives the silent placeholder.
    pub fn next_frame(&self) -> (r: FrameKind)
        ensures
            r == if self.spec_enabled() {
                FrameKind::Animated(self.spec_band_count())
            } else {
                FrameKind::Silent
            },
    {
        if self.enabled {
            FrameKind::Animated(self.band_count)
        } else {
            FrameKind::Silent
        }
    }
}

} // verus!
