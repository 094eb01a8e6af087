//! Properties that relate the operations of a simulated camera.

use vstd::prelude::*;

use crate::control::Control;
use crate::error::QHYError;
use crate::status::QHYCCD_ERROR;
use crate::types::{bayer_mode_of_code, BayerMode, CCDChipArea, FrameFormat};

use super::camera::{
    spec_close,
    spec_control_availability,
    spec_init,
    spec_live_frame,
    spec_open,
    spec_port_position,
    spec_set_readout_mode,
    spec_set_readout_mode_result,
    updated_when_open,
    when_open,
    FILTER_WHEEL_ASCII_OFFSET,
};
use super::image::frame_byte_len;
use super::config::SimulatedCameraConfig;
use super::state::SimulatedCameraState;

verus! {

/// A readout mode that was set on an open camera is accepted and is the one
/// the camera reports afterwards.
pub proof fn lemma_readout_mode_set_then_get(s: SimulatedCameraState, mode: u32)
    requires
        s.is_open,
        mode < s.config.readout_modes@.len(),
    ensures
        spec_set_readout_mode_result(s, mode) == Ok::<(), QHYError>(()),
        when_open(spec_set_readout_mode(s, mode), spec_set_readout_mode(s, mode).readout_mode)
            == Ok::<u32, QHYError>(mode),
{
}

/// A live frame holds exactly as many bytes as `get_image_size` reports.
pub proof fn lemma_live_frame_matches_image_size(s: SimulatedCameraState)
    requires
        s.is_open,
        s.live_mode_active,
        s.binning_valid(),
    ensures
        spec_live_frame(s) is Ok,
        frame_byte_len(spec_live_frame(s)->Ok_0) == s.spec_buffer_size(),
{
    let f = spec_live_frame(s)->Ok_0;
    let bytes: int = if s.bit_depth <= 8 {
        1
    } else {
        2
    };
    assert(f.width * f.height * f.channels * bytes == f.width * f.height * bytes * f.channels)
        by (nonlinear_arith);
}

/// The ROI shapes the frame: after `set_roi` on an open camera in live mode,
/// the frame is the ROI divided by the binning.
pub proof fn lemma_roi_shapes_frame(s: SimulatedCameraState, roi: CCDChipArea)
    requires
        s.is_open,
        s.live_mode_active,
        s.binning_valid(),
    ensures
        spec_live_frame(updated_when_open(s, SimulatedCameraState { roi, ..s })) == Ok::<
            FrameFormat,
            QHYError,
        >(
            FrameFormat {
                width: (roi.width / s.binning.0) as u32,
                height: (roi.height / s.binning.1) as u32,
                bits_per_pixel: s.bit_depth,
                channels: s.spec_channels(),
            },
        ),
{
}

/// `init` on an open camera selects the full resolution of the current
/// readout mode and marks the camera initialized.
pub proof fn lemma_init_selects_full_frame(s: SimulatedCameraState)
    requires
        s.is_open,
        s.readout_mode < s.config.readout_modes@.len(),
    ensures
        spec_init(s).is_initialized,
        spec_init(s).roi == (CCDChipArea {
            start_x: 0,
            start_y: 0,
            width: s.config.readout_modes@[s.readout_mode as int].1.0,
            height: s.config.readout_modes@[s.readout_mode as int].1.1,
        }),
{
}

/// After an exposure is stopped (or aborted), nothing remains of it at any time.
pub proof fn lemma_stopped_exposure_is_over(s: SimulatedCameraState, now: u64)
    requires
        s.is_open,
    ensures
        updated_when_open(s, SimulatedCameraState { exposure_start: None, ..s }).spec_remaining_at(
            now,
        ) == 0,
        updated_when_open(
            s,
            SimulatedCameraState { exposure_start: None, ..s },
        ).spec_exposure_complete_at(now),
{
}

/// The remaining exposure time never grows as time goes on, and never exceeds
/// the exposure duration (for durations that fit in 32 bits).
pub proof fn lemma_remaining_exposure_monotone(s: SimulatedCameraState, t1: u64, t2: u64)
    requires
        s.exposure_duration_us <= u32::MAX,
        t1 <= t2,
    ensures
        s.spec_remaining_at(t2) <= s.spec_remaining_at(t1),
        s.spec_remaining_at(t1) <= s.exposure_duration_us,
{
}

/// Nothing remains of an exposure exactly when it is complete (for durations
/// that fit in 32 bits).
pub proof fn lemma_remaining_zero_iff_complete(s: SimulatedCameraState, now: u64)
    requires
        s.exposure_duration_us <= u32::MAX,
    ensures
        (s.spec_remaining_at(now) == 0) == s.spec_exposure_complete_at(now),
{
}

/// An exposure of `duration` microseconds started at `start` has
/// `duration - k` microseconds left `k` microseconds later.
pub proof fn lemma_exposure_counts_down(
    s: SimulatedCameraState,
    start: u64,
    duration: u64,
    k: u64,
)
    requires
        s.is_open,
        duration <= u32::MAX,
        k <= duration,
        start + k <= u64::MAX,
    ensures
        updated_when_open(
            s,
            SimulatedCameraState {
                exposure_start: Some(start),
                exposure_duration_us: duration,
                ..s
            },
        ).spec_remaining_at((start + k) as u64) == duration - k,
{
}

/// Moving the filter wheel to a position through its port value leaves it at
/// that position, and the port then reports the same value.
pub proof fn lemma_filter_wheel_position_roundtrip(s: SimulatedCameraState, position: u32)
    requires
        s.is_open,
        position <= u32::MAX - FILTER_WHEEL_ASCII_OFFSET,
    ensures
        ({
            let t = updated_when_open(
                s,
                SimulatedCameraState {
                    filter_wheel_position: spec_port_position(
                        (position + FILTER_WHEEL_ASCII_OFFSET) as u32,
                    ),
                    ..s
                },
            );
            &&& t.filter_wheel_position == position
            &&& when_open(t, (t.filter_wheel_position + FILTER_WHEEL_ASCII_OFFSET) as u32) == Ok::<
                u32,
                QHYError,
            >((position + FILTER_WHEEL_ASCII_OFFSET) as u32)
        }),
{
}

/// A closed camera refuses every operation that needs an open camera, and
/// closing an open camera ends its initialization.
pub proof fn lemma_close_refuses_further_work<T>(s: SimulatedCameraState, v: T)
    ensures
        !spec_close(s).is_open,
        when_open(spec_close(s), v) == Err::<T, QHYError>(QHYError::CameraNotOpenError),
        s.is_open ==> !spec_close(s).is_initialized,
{
}

/// Opening and closing a closed camera keeps all its settings but the
/// initialization.
pub proof fn lemma_open_close_keeps_settings(s: SimulatedCameraState)
    requires
        !s.is_open,
    ensures
        spec_close(spec_open(s)) == (SimulatedCameraState { is_initialized: false, ..s }),
{
}

/// A color camera reports its Bayer pattern for `CamColor`: the number it
/// reports is the SDK's number for exactly that pattern, whatever the pattern;
/// a mono camera reports nothing for it.
pub proof fn lemma_color_camera_reports_bayer_pattern(s: SimulatedCameraState)
    requires
        s.is_open,
        s.config.supported_controls@.contains(Control::CamColor),
    ensures
        s.config.bayer_mode matches Some(m) ==> (spec_control_availability(s, Control::CamColor)
            matches Some(n) && bayer_mode_of_code(n) == Ok::<BayerMode, ()>(m)),
        s.config.bayer_mode is None ==> spec_control_availability(s, Control::CamColor) is None,
        s.config.bayer_mode == Some(BayerMode::GBRG) ==> spec_control_availability(
            s,
            Control::CamColor,
        ) == Some(1u32),
        s.config.bayer_mode == Some(BayerMode::GRBG) ==> spec_control_availability(
            s,
            Control::CamColor,
        ) == Some(2u32),
        s.config.bayer_mode == Some(BayerMode::BGGR) ==> spec_control_availability(
            s,
            Control::CamColor,
        ) == Some(3u32),
        s.config.bayer_mode == Some(BayerMode::RGGB) ==> spec_control_availability(
            s,
            Control::CamColor,
        ) == Some(4u32),
{
}

/// Debayering a color sensor gives three channels per pixel, and the buffer
/// holds three samples per pixel; any other camera, or a color camera with
/// debayering off, gives one.
pub proof fn lemma_debayered_color_frames_have_three_channels(s: SimulatedCameraState)
    requires
        s.binning_valid(),
    ensures
        ({
            let width = s.roi.width / s.binning.0;
            let height = s.roi.height / s.binning.1;
            let bytes: int = if s.bit_depth <= 8 {
                1
            } else {
                2
            };
            let channels: int = if s.config.bayer_mode is Some && s.debayer_enabled {
                3
            } else {
                1
            };
            &&& s.spec_channels() == channels
            &&& s.spec_buffer_size() == width * height * bytes * channels
            &&& (s.is_open && s.live_mode_active) ==> spec_live_frame(s) == Ok::<
                FrameFormat,
                QHYError,
            >(
                FrameFormat {
                    width: width as u32,
                    height: height as u32,
                    bits_per_pixel: s.bit_depth,
                    channels: channels as u32,
                },
            )
        }),
        (s.config.bayer_mode is Some && s.debayer_enabled) ==> s.spec_channels() == 3,
        !(s.config.bayer_mode is Some && s.debayer_enabled) ==> s.spec_channels() == 1,
{
}

/// On an open camera a readout mode is accepted exactly when it is one of the
/// configured modes; any other is refused with `SetReadoutModeError` carrying
/// `QHYCCD_ERROR`, and the readout mode stays as it was. The mode in use is
/// always one of the configured ones after an accepted change.
pub proof fn lemma_readout_mode_accepted_iff_configured(s: SimulatedCameraState, mode: u32)
    requires
        s.is_open,
    ensures
        spec_set_readout_mode_result(s, mode) is Ok <==> mode < s.config.readout_modes@.len(),
        mode >= s.config.readout_modes@.len() ==> {
            &&& spec_set_readout_mode_result(s, mode) == Err::<(), QHYError>(
                QHYError::SetReadoutModeError { error_code: QHYCCD_ERROR },
            )
            &&& spec_set_readout_mode(s, mode).readout_mode == s.readout_mode
            &&& spec_set_readout_mode(s, mode) == s
        },
        spec_set_readout_mode_result(s, mode) is Ok ==> spec_set_readout_mode(s, mode).readout_mode
            == mode && spec_set_readout_mode(s, mode).readout_mode
            < s.config.readout_modes@.len(),
{
}

/// A freshly created camera is closed, uses 1x1 binning, readout mode 0 and
/// the sensor's transfer depth, runs no exposure, and has its filter wheel at
/// position 0: once opened, the filter wheel port reads the ASCII digit `0`.
pub proof fn lemma_new_camera_starts_at_position_zero(config: SimulatedCameraConfig)
    ensures
        ({
            let s = SimulatedCameraState::initial(config);
            let t = spec_open(s);
            &&& !s.is_open
            &&& !s.is_initialized
            &&& s.binning == (1u32, 1u32)
            &&& s.readout_mode == 0
            &&& s.bit_depth == config.chip_info.bits_per_pixel
            &&& s.roi == config.effective_area
            &&& s.exposure_start is None
            &&& !s.live_mode_active
            &&& !s.debayer_enabled
            &&& s.filter_wheel_position == 0
            &&& when_open(t, (t.filter_wheel_position + FILTER_WHEEL_ASCII_OFFSET) as u32)
                == Ok::<u32, QHYError>(48u32)
        }),
{
}

} // verus!
