//! Runtime state of a simulated camera.
//!
//! Times are microseconds on a monotonic clock chosen by the caller; the state
//! only ever compares them.

use vstd::prelude::*;

use crate::types::{CCDChipArea, StreamMode};

use super::config::SimulatedCameraConfig;

verus! {

/// Runtime state of a simulated camera.
#[derive(Debug)]
pub struct SimulatedCameraState {
    /// Camera configuration (reference data)
    pub config: SimulatedCameraConfig,
    /// Whether the camera is currently open
    pub is_open: bool,
    /// Whether the camera has been initialized
    pub is_initialized: bool,
    /// Current stream mode
    pub stream_mode: Option<StreamMode>,
    /// Current ROI settings
    pub roi: CCDChipArea,
    /// Current binning (x, y)
    pub binning: (u32, u32),
    /// Current bit depth for transfers
    pub bit_depth: u32,
    /// Current readout mode index
    pub readout_mode: u32,
    /// Whether live mode is active
    pub live_mode_active: bool,
    /// Start of the running exposure, in microseconds (single frame mode)
    pub exposure_start: Option<u64>,
    /// Exposure duration in microseconds (single frame mode)
    pub exposure_duration_us: u64,
    /// Current filter wheel position (0-indexed)
    pub filter_wheel_position: u32,
    /// Debayer enabled
    pub debayer_enabled: bool,
}

impl SimulatedCameraState {
    /// The state of a freshly created camera: closed, not initialized, the ROI
    /// is the effective area, binning 1x1, transfer depth as the sensor's,
    /// readout mode 0, no exposure running (1 ms by default), filter wheel at
    /// position 0.
    pub open spec fn initial(config: SimulatedCameraConfig) -> SimulatedCameraState {
        SimulatedCameraState {
            config,
            is_open: false,
            is_initialized: false,
            stream_mode: None,
            roi: config.effective_area,
            binning: (1, 1),
            bit_depth: config.chip_info.bits_per_pixel,
            readout_mode: 0,
            live_mode_active: false,
            exposure_start: None,
            exposure_duration_us: 1000,
            filter_wheel_position: 0,
            debayer_enabled: false,
        }
    }

    /// Whether the binning divides (neither factor is zero).
    pub open spec fn binning_valid(&self) -> bool {
        self.binning.0 > 0 && self.binning.1 > 0
    }

    /// The image dimensions: the ROI divided by the binning.
    pub open spec fn spec_image_dimensions(&self) -> (u32, u32) {
        ((self.roi.width / self.binning.0) as u32, (self.roi.height / self.binning.1) as u32)
    }

    /// Bytes per pixel: 1 up to 8 bits of depth, else 2.
    pub open spec fn spec_bytes_per_pixel(&self) -> u32 {
        if self.bit_depth <= 8 {
            1
        } else {
            2
        }
    }

    /// Channels: 3 for a color camera with debayering on, else 1.
    pub open spec fn spec_channels(&self) -> u32 {
        if self.config.bayer_mode is Some && self.debayer_enabled {
            3
        } else {
            1
        }
    }

    /// The number of bytes of a frame with the current settings.
    pub open spec fn spec_buffer_size(&self) -> int {
        let (w, h) = self.spec_image_dimensions();
        w * h * self.spec_bytes_per_pixel() * self.spec_channels()
    }

    /// Whether the buffer size can be computed: the binning divides and the
    /// size fits in 32 bits (as the computation is done in 32 bits).
    pub open spec fn buffer_size_defined(&self) -> bool {
        self.binning_valid() && self.spec_buffer_size() <= u32::MAX
    }

    /// Microseconds elapsed since the exposure started, at time `now`.
    pub open spec fn elapsed_at(start: u64, now: u64) -> u64 {
        if now >= start {
            (now - start) as u64
        } else {
            0
        }
    }

    /// The remaining exposure time at `now`: 0 without a running exposure or
    /// once the duration has elapsed, else the rest of the duration cut to 32 bits.
    pub open spec fn spec_remaining_at(&self, now: u64) -> u32 {
        match self.exposure_start {
            Some(start) => {
                let elapsed = Self::elapsed_at(start, now);
                if elapsed >= self.exposure_duration_us {
                    0
                } else {
                    (self.exposure_duration_us - elapsed) as u32
                }
            },
            None => 0,
        }
    }

    /// Whether the exposure is complete at `now` (trivially so without one).
    pub open spec fn spec_exposure_complete_at(&self, now: u64) -> bool {
        match self.exposure_start {
            Some(start) => Self::elapsed_at(start, now) >= self.exposure_duration_us,
            None => true,
        }
    }

    /// Creates a new state from a configuration.
    pub fn new(config: SimulatedCameraConfig) -> (s: Self)
        ensures
            s == Self::initial(config),
    {
        let roi = config.effective_area;
        let bit_depth = config.chip_info.bits_per_pixel;
        SimulatedCameraState {
            config,
            is_open: false,
            is_initialized: false,
            stream_mode: None,
            roi,
            binning: (1, 1),
            bit_depth,
            readout_mode: 0,
            live_mode_active: false,
            exposure_start: None,
            exposure_duration_us: 1000,
            filter_wheel_position: 0,
            debayer_enabled: false,
        }
    }

    /// Gets the current image dimensions accounting for ROI and binning.
    pub fn get_current_image_dimensions(&self) -> (d: (u32, u32))
        requires
            self.binning_valid(),
        ensures
            d == self.spec_image_dimensions(),
    {
        let width = self.roi.width / self.binning.0;
        let height = self.roi.height / self.binning.1;
        (width, height)
    }

    /// Gets the number of bytes per pixel based on the current bit depth.
    pub fn get_bytes_per_pixel(&self) -> (b: u32)
        ensures
            b == self.spec_bytes_per_pixel(),
    {
        if self.bit_depth <= 8 {
            1
        } else {
            2
        }
    }

    /// Gets the number of channels (1 for mono, 3 for color with debayer).
    pub fn get_channels(&self) -> (c: u32)
        ensures
            c == self.spec_channels(),
    {
        if self.config.bayer_mode.is_some() && self.debayer_enabled {
            3
        } else {
            1
        }
    }

    /// Calculates the required buffer size for the current settings.
    pub fn calculate_buffer_size(&self) -> (n: usize)
        requires
            self.buffer_size_defined(),
        ensures
            n == self.spec_buffer_size(),
    {
        let (width, height) = self.get_current_image_dimensions();
        let bytes_per_pixel = self.get_bytes_per_pixel();
        let channels = self.get_channels();
        proof {
            lemma_factors_bound_product(width as nat, height as nat, bytes_per_pixel as nat, channels as nat);
        }
        (width * height * bytes_per_pixel * channels) as usize
    }

    /// The buffer size for the current settings, or `None` where computing it
    /// would divide by zero or overflow 32 bits.
    pub fn checked_buffer_size(&self) -> (n: Option<usize>)
        ensures
            n is Some <==> self.buffer_size_defined(),
            n matches Some(v) ==> v == self.spec_buffer_size(),
    {
        if self.binning.0 == 0 || self.binning.1 == 0 {
            return None;
        }
        let (width, height) = self.get_current_image_dimensions();
        let bytes_per_pixel = self.get_bytes_per_pixel();
        let channels = self.get_channels();
        proof {
            lemma_factors_bound_product(width as nat, height as nat, bytes_per_pixel as nat, channels as nat);
            assert(width as int * height as int <= 0xffff_ffff * 0xffff_ffff) by (nonlinear_arith)
                requires
                    width <= 0xffff_ffffu32,
                    height <= 0xffff_ffffu32,
            ;
        }
        let total: u64 = width as u64 * height as u64;
        if total > 4294967295 {
            return None;
        }
        proof {
            assert(total * bytes_per_pixel * channels <= 0xffff_ffff * 6) by (nonlinear_arith)
                requires
                    total <= 0xffff_ffff,
                    bytes_per_pixel <= 2,
                    channels <= 3,
            ;
        }
        let total: u64 = total * bytes_per_pixel as u64 * channels as u64;
        if total > 4294967295 {
            None
        } else {
            Some(self.calculate_buffer_size())
        }
    }

    /// Returns the remaining exposure time in microseconds at time `now`.
    pub fn get_remaining_exposure_us(&self, now: u64) -> (r: u32)
        ensures
            r == self.spec_remaining_at(now),
    {
        match self.exposure_start {
            Some(start) => {
                let elapsed_us = if now >= start {
                    now - start
                } else {
                    0
                };
                if elapsed_us >= self.exposure_duration_us {
                    0
                } else {
                    (self.exposure_duration_us - elapsed_us) as u32
                }
            },
            None => 0,
        }
    }

    /// Checks if the current exposure is complete at time `now`.
    pub fn is_exposure_complete(&self, now: u64) -> (b: bool)
        ensures
            b == self.spec_exposure_complete_at(now),
    {
        match self.exposure_start {
            Some(start) => {
                let elapsed_us = if now >= start {
                    now - start
                } else {
                    0
                };
                elapsed_us >= self.exposure_duration_us
            },
            None => true,
        }
    }

    /// Starts an exposure at time `now`; `exposure_param_us` is the exposure
    /// parameter in microseconds, when one is set, and becomes the duration.
    pub fn start_exposure(&mut self, now: u64, exposure_param_us: Option<u64>)
        ensures
            *final(self) == (SimulatedCameraState {
                exposure_start: Some(now),
                exposure_duration_us: match exposure_param_us {
                    Some(us) => us,
                    None => old(self).exposure_duration_us,
                },
                ..*old(self)
            }),
        no_unwind
    {
        self.exposure_start = Some(now);
        if let Some(exposure_us) = exposure_param_us {
            self.exposure_duration_us = exposure_us;
        }
    }

    /// Cancels the current exposure.
    pub fn cancel_exposure(&mut self)
        ensures
            *final(self) == (SimulatedCameraState { exposure_start: None, ..*old(self) }),
        no_unwind
    {
        self.exposure_start = None;
    }
}

/// With factors of at least one, each partial product of
/// `width * height * bytes * channels` is at most the whole product.
proof fn lemma_factors_bound_product(width: nat, height: nat, bytes: nat, channels: nat)
    requires
        bytes >= 1,
        channels >= 1,
    ensures
        width * height <= width * height * bytes,
        width * height * bytes <= width * height * bytes * channels,
{
    assert(width * height <= width * height * bytes) by (nonlinear_arith)
        requires
            bytes >= 1,
    ;
    assert(width * height * bytes <= width * height * bytes * channels) by (nonlinear_arith)
        requires
            channels >= 1,
    ;
}

} // verus!
