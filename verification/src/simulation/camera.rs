//! The operations of a simulated camera. Each operation but `open`, `close`
//! and `is_open` is refused with `CameraNotOpenError` while the camera is
//! closed, and then leaves the camera as it was.

use vstd::prelude::*;

use crate::control::Control;
use crate::error::QHYError;
use crate::status::QHYCCD_ERROR;
use crate::types::{CCDChipArea, ChipFormat, FrameFormat, StreamMode};

use super::config::SimulatedCameraConfig;
use super::state::SimulatedCameraState;

verus! {

/// The ASCII offset the SDK adds to filter wheel positions: position `p` is
/// reported and set as the character code of the digit `p`.
pub const FILTER_WHEEL_ASCII_OFFSET: u32 = 48;

/// The result of a query that needs an open camera: `v` when `s` is open.
pub open spec fn when_open<T>(s: SimulatedCameraState, v: T) -> Result<T, QHYError> {
    if s.is_open {
        Ok(v)
    } else {
        Err(QHYError::CameraNotOpenError)
    }
}

/// The state after an update that needs an open camera: `t` when `s` is open,
/// else `s` unchanged.
pub open spec fn updated_when_open(s: SimulatedCameraState, t: SimulatedCameraState) -> SimulatedCameraState {
    if s.is_open {
        t
    } else {
        s
    }
}

/// The state after `open`.
pub open spec fn spec_open(s: SimulatedCameraState) -> SimulatedCameraState {
    SimulatedCameraState { is_open: true, ..s }
}

/// The state after `close`: closing ends the initialization.
pub open spec fn spec_close(s: SimulatedCameraState) -> SimulatedCameraState {
    if s.is_open {
        SimulatedCameraState { is_open: false, is_initialized: false, ..s }
    } else {
        s
    }
}

/// The state after `set_readout_mode(mode)`.
pub open spec fn spec_set_readout_mode(s: SimulatedCameraState, mode: u32) -> SimulatedCameraState {
    if s.is_open && mode < s.config.readout_modes@.len() {
        SimulatedCameraState { readout_mode: mode, ..s }
    } else {
        s
    }
}

/// The result of `set_readout_mode(mode)`: modes beyond the configured ones
/// are refused with `SetReadoutModeError` carrying `QHYCCD_ERROR`.
pub open spec fn spec_set_readout_mode_result(s: SimulatedCameraState, mode: u32) -> Result<(), QHYError> {
    if !s.is_open {
        Err(QHYError::CameraNotOpenError)
    } else if mode < s.config.readout_modes@.len() {
        Ok(())
    } else {
        Err(QHYError::SetReadoutModeError { error_code: QHYCCD_ERROR })
    }
}

/// The ROI `init` selects: the full resolution of the current readout mode,
/// or of the sensor when the current mode is not configured.
pub open spec fn spec_init_roi(s: SimulatedCameraState) -> CCDChipArea {
    let (width, height) = if s.readout_mode < s.config.readout_modes@.len() {
        s.config.readout_modes@[s.readout_mode as int].1
    } else {
        (s.config.chip_info.image_width, s.config.chip_info.image_height)
    };
    CCDChipArea { start_x: 0, start_y: 0, width, height }
}

/// The state after `init`.
pub open spec fn spec_init(s: SimulatedCameraState) -> SimulatedCameraState {
    updated_when_open(s, SimulatedCameraState { is_initialized: true, roi: spec_init_roi(s), ..s })
}

/// The format of the frame the camera delivers in its current state.
pub open spec fn spec_frame_format(s: SimulatedCameraState) -> FrameFormat {
    FrameFormat {
        width: s.spec_image_dimensions().0,
        height: s.spec_image_dimensions().1,
        bits_per_pixel: s.bit_depth,
        channels: s.spec_channels(),
    }
}

/// The result of `get_live_frame`: the frame format while live mode runs,
/// `GetLiveFrameError` carrying `QHYCCD_ERROR` otherwise.
pub open spec fn spec_live_frame(s: SimulatedCameraState) -> Result<FrameFormat, QHYError> {
    if !s.is_open {
        Err(QHYError::CameraNotOpenError)
    } else if !s.live_mode_active {
        Err(QHYError::GetLiveFrameError { error_code: QHYCCD_ERROR })
    } else {
        Ok(spec_frame_format(s))
    }
}

/// What `is_control_available` reports: nothing for a closed camera or an
/// unsupported control; the Bayer pattern's number for `CamColor` (nothing on
/// a mono camera); 1 for any other supported control.
pub open spec fn spec_control_availability(s: SimulatedCameraState, control: Control) -> Option<u32> {
    if !s.is_open || !s.config.supported_controls@.contains(control) {
        None
    } else if control == Control::CamColor {
        match s.config.bayer_mode {
            Some(m) => Some(m.spec_code()),
            None => None,
        }
    } else {
        Some(1)
    }
}

/// The filter wheel position that the port value `port` selects: the ASCII
/// offset is removed, and values below it select position 0.
pub open spec fn spec_port_position(port: u32) -> u32 {
    if port >= FILTER_WHEEL_ASCII_OFFSET {
        (port - FILTER_WHEEL_ASCII_OFFSET) as u32
    } else {
        0
    }
}

/// A simulated camera.
#[derive(Debug)]
pub struct SimulatedCamera {
    state: SimulatedCameraState,
}

impl View for SimulatedCamera {
    type V = SimulatedCameraState;

    closed spec fn view(&self) -> SimulatedCameraState {
        self.state
    }
}

impl SimulatedCamera {
    /// The filter wheel position always leaves room for the ASCII offset.
    #[verifier::type_invariant]
    spec fn port_fits(&self) -> bool {
        self.state.filter_wheel_position <= u32::MAX - FILTER_WHEEL_ASCII_OFFSET
    }

    /// Creates a simulated camera from a configuration; it starts closed.
    pub fn new(config: SimulatedCameraConfig) -> (c: Self)
        ensures
            c@ == SimulatedCameraState::initial(config),
    {
        SimulatedCamera { state: SimulatedCameraState::new(config) }
    }

    /// The runtime state of the camera.
    pub fn state(&self) -> (s: &SimulatedCameraState)
        ensures
            *s == self@,
    {
        &self.state
    }

    /// Returns the id of the camera.
    pub fn id(&self) -> (id: &str)
        ensures
            id@ == self@.config.id@,
    {
        self.state.config.id.as_str()
    }

    /// Opens the camera; opening an open camera does nothing.
    pub fn open(&mut self)
        ensures
            final(self)@ == spec_open(old(self)@),
    {
        proof {
            use_type_invariant(&*self);
        }
        self.state.is_open = true;
    }

    /// Closes the camera, which also ends its initialization; closing a closed
    /// camera does nothing.
    pub fn close(&mut self)
        ensures
            final(self)@ == spec_close(old(self)@),
    {
        proof {
            use_type_invariant(&*self);
        }
        if self.state.is_open {
            self.state.is_open = false;
            self.state.is_initialized = false;
        }
    }

    /// Returns `true` if the camera is open.
    pub fn is_open(&self) -> (b: bool)
        ensures
            b == self@.is_open,
    {
        self.state.is_open
    }

    /// Sets the stream mode of the camera.
    pub fn set_stream_mode(&mut self, mode: StreamMode) -> (r: Result<(), QHYError>)
        ensures
            r == when_open(old(self)@, ()),
            final(self)@ == updated_when_open(
                old(self)@,
                SimulatedCameraState { stream_mode: Some(mode), ..old(self)@ },
            ),
    {
        proof {
            use_type_invariant(&*self);
        }
        if !self.state.is_open {
            return Err(QHYError::CameraNotOpenError);
        }
        self.state.stream_mode = Some(mode);
        Ok(())
    }

    /// Sets the readout mode to one of the configured modes.
    pub fn set_readout_mode(&mut self, mode: u32) -> (r: Result<(), QHYError>)
        ensures
            r == spec_set_readout_mode_result(old(self)@, mode),
            final(self)@ == spec_set_readout_mode(old(self)@, mode),
    {
        proof {
            use_type_invariant(&*self);
        }
        if !self.state.is_open {
            return Err(QHYError::CameraNotOpenError);
        }
        if mode as usize >= self.state.config.readout_modes.len() {
            return Err(QHYError::SetReadoutModeError { error_code: QHYCCD_ERROR });
        }
        self.state.readout_mode = mode;
        Ok(())
    }

    /// Returns the model of the camera.
    pub fn get_model(&self) -> (r: Result<String, QHYError>)
        ensures
            r is Ok <==> self@.is_open,
            r matches Ok(m) ==> m@ == self@.config.model@,
            r matches Err(e) ==> e == QHYError::CameraNotOpenError,
    {
        if !self.state.is_open {
            return Err(QHYError::CameraNotOpenError);
        }
        Ok(self.state.config.model.clone())
    }

    /// Initializes the camera to a new session; the ROI becomes the full
    /// resolution of the current readout mode.
    pub fn init(&mut self) -> (r: Result<(), QHYError>)
        ensures
            r == when_open(old(self)@, ()),
            final(self)@ == spec_init(old(self)@),
    {
        proof {
            use_type_invariant(&*self);
        }
        if !self.state.is_open {
            return Err(QHYError::CameraNotOpenError);
        }
        self.state.is_initialized = true;
        let index = self.state.readout_mode as usize;
        let (width, height) = if index < self.state.config.readout_modes.len() {
            self.state.config.readout_modes[index].1
        } else {
            (self.state.config.chip_info.image_width, self.state.config.chip_info.image_height)
        };
        self.state.roi = CCDChipArea { start_x: 0, start_y: 0, width, height };
        Ok(())
    }

    /// Returns the firmware version of the camera.
    pub fn get_firmware_version(&self) -> (r: Result<String, QHYError>)
        ensures
            r is Ok <==> self@.is_open,
            r matches Ok(v) ==> v@ == self@.config.firmware_version@,
            r matches Err(e) ==> e == QHYError::CameraNotOpenError,
    {
        if !self.state.is_open {
            return Err(QHYError::CameraNotOpenError);
        }
        Ok(self.state.config.firmware_version.clone())
    }

    /// Returns the number of readout modes of the camera.
    pub fn get_number_of_readout_modes(&self) -> (r: Result<u32, QHYError>)
        ensures
            r == when_open(self@, self@.config.readout_modes@.len() as u32),
    {
        if !self.state.is_open {
            return Err(QHYError::CameraNotOpenError);
        }
        Ok(self.state.config.readout_modes.len() as u32)
    }

    /// Returns the name of the readout mode with the given index.
    pub fn get_readout_mode_name(&self, index: u32) -> (r: Result<String, QHYError>)
        ensures
            r is Ok <==> self@.is_open && index < self@.config.readout_modes@.len(),
            r matches Ok(name) ==> name@ == self@.config.readout_modes@[index as int].0@,
            r matches Err(e) ==> e == (if self@.is_open {
                QHYError::GetReadoutModeNameError
            } else {
                QHYError::CameraNotOpenError
            }),
    {
        if !self.state.is_open {
            return Err(QHYError::CameraNotOpenError);
        }
        let i = index as usize;
        if i < self.state.config.readout_modes.len() {
            Ok(self.state.config.readout_modes[i].0.clone())
        } else {
            Err(QHYError::GetReadoutModeNameError)
        }
    }

    /// Returns the resolution of the readout mode with the given index.
    pub fn get_readout_mode_resolution(&self, index: u32) -> (r: Result<(u32, u32), QHYError>)
        ensures
            r == (if !self@.is_open {
                Err(QHYError::CameraNotOpenError)
            } else if index < self@.config.readout_modes@.len() {
                Ok(self@.config.readout_modes@[index as int].1)
            } else {
                Err(QHYError::GetReadoutModeResolutionError)
            }),
    {
        if !self.state.is_open {
            return Err(QHYError::CameraNotOpenError);
        }
        let i = index as usize;
        if i < self.state.config.readout_modes.len() {
            Ok(self.state.config.readout_modes[i].1)
        } else {
            Err(QHYError::GetReadoutModeResolutionError)
        }
    }

    /// Returns the current readout mode of the camera.
    pub fn get_readout_mode(&self) -> (r: Result<u32, QHYError>)
        ensures
            r == when_open(self@, self@.readout_mode),
    {
        if !self.state.is_open {
            return Err(QHYError::CameraNotOpenError);
        }
        Ok(self.state.readout_mode)
    }

    /// Returns the type code of the camera.
    pub fn get_type(&self) -> (r: Result<u32, QHYError>)
        ensures
            r == when_open(self@, self@.config.camera_type),
    {
        if !self.state.is_open {
            return Err(QHYError::CameraNotOpenError);
        }
        Ok(self.state.config.camera_type)
    }

    /// Sets the binning mode of the camera.
    pub fn set_bin_mode(&mut self, bin_x: u32, bin_y: u32) -> (r: Result<(), QHYError>)
        ensures
            r == when_open(old(self)@, ()),
            final(self)@ == updated_when_open(
                old(self)@,
                SimulatedCameraState { binning: (bin_x, bin_y), ..old(self)@ },
            ),
    {
        proof {
            use_type_invariant(&*self);
        }
        if !self.state.is_open {
            return Err(QHYError::CameraNotOpenError);
        }
        self.state.binning = (bin_x, bin_y);
        Ok(())
    }

    /// Switches debayering on or off.
    pub fn set_debayer(&mut self, on: bool) -> (r: Result<(), QHYError>)
        ensures
            r == when_open(old(self)@, ()),
            final(self)@ == updated_when_open(
                old(self)@,
                SimulatedCameraState { debayer_enabled: on, ..old(self)@ },
            ),
    {
        proof {
            use_type_invariant(&*self);
        }
        if !self.state.is_open {
            return Err(QHYError::CameraNotOpenError);
        }
        self.state.debayer_enabled = on;
        Ok(())
    }

    /// Sets the region of interest of the camera.
    pub fn set_roi(&mut self, roi: CCDChipArea) -> (r: Result<(), QHYError>)
        ensures
            r == when_open(old(self)@, ()),
            final(self)@ == updated_when_open(
                old(self)@,
                SimulatedCameraState { roi, ..old(self)@ },
            ),
    {
        proof {
            use_type_invariant(&*self);
        }
        if !self.state.is_open {
            return Err(QHYError::CameraNotOpenError);
        }
        self.state.roi = roi;
        Ok(())
    }

    /// Starts live video mode.
    pub fn begin_live(&mut self) -> (r: Result<(), QHYError>)
        ensures
            r == when_open(old(self)@, ()),
            final(self)@ == updated_when_open(
                old(self)@,
                SimulatedCameraState { live_mode_active: true, ..old(self)@ },
            ),
    {
        proof {
            use_type_invariant(&*self);
        }
        if !self.state.is_open {
            return Err(QHYError::CameraNotOpenError);
        }
        self.state.live_mode_active = true;
        Ok(())
    }

    /// Stops live video mode.
    pub fn end_live(&mut self) -> (r: Result<(), QHYError>)
        ensures
            r == when_open(old(self)@, ()),
            final(self)@ == updated_when_open(
                old(self)@,
                SimulatedCameraState { live_mode_active: false, ..old(self)@ },
            ),
    {
        proof {
            use_type_invariant(&*self);
        }
        if !self.state.is_open {
            return Err(QHYError::CameraNotOpenError);
        }
        self.state.live_mode_active = false;
        Ok(())
    }

    /// Returns the number of bytes of a frame with the current settings.
    pub fn get_image_size(&self) -> (r: Result<usize, QHYError>)
        requires
            self@.is_open ==> self@.buffer_size_defined(),
        ensures
            r == when_open(self@, self@.spec_buffer_size() as usize),
    {
        if !self.state.is_open {
            return Err(QHYError::CameraNotOpenError);
        }
        Ok(self.state.calculate_buffer_size())
    }

    /// Returns the format of the frame delivered in live video mode.
    pub fn get_live_frame(&self) -> (r: Result<FrameFormat, QHYError>)
        requires
            self@.is_open && self@.live_mode_active ==> self@.binning_valid(),
        ensures
            r == spec_live_frame(self@),
    {
        if !self.state.is_open {
            return Err(QHYError::CameraNotOpenError);
        }
        if !self.state.live_mode_active {
            return Err(QHYError::GetLiveFrameError { error_code: QHYCCD_ERROR });
        }
        Ok(self.frame_format())
    }

    /// The format of the frame the camera delivers in its current state.
    fn frame_format(&self) -> (f: FrameFormat)
        requires
            self@.binning_valid(),
        ensures
            f == spec_frame_format(self@),
    {
        let (width, height) = self.state.get_current_image_dimensions();
        FrameFormat {
            width,
            height,
            bits_per_pixel: self.state.bit_depth,
            channels: self.state.get_channels(),
        }
    }

    /// Whether an exposure is running and not yet complete at time `now`.
    pub fn exposure_pending(&self, now: u64) -> (b: bool)
        ensures
            b == (self@.exposure_start is Some && !self@.spec_exposure_complete_at(now)),
    {
        self.state.exposure_start.is_some() && !self.state.is_exposure_complete(now)
    }

    /// Takes the frame of a single frame exposure at time `now`, when the
    /// exposure (if any) is complete, and returns its format; the exposure ends.
    pub fn get_single_frame(&mut self, now: u64) -> (r: Result<FrameFormat, QHYError>)
        requires
            old(self)@.is_open ==> old(self)@.binning_valid() && old(self)@.spec_exposure_complete_at(
                now,
            ),
        ensures
            r == when_open(old(self)@, spec_frame_format(old(self)@)),
            final(self)@ == updated_when_open(
                old(self)@,
                SimulatedCameraState { exposure_start: None, ..old(self)@ },
            ),
    {
        proof {
            use_type_invariant(&*self);
        }
        if !self.state.is_open {
            return Err(QHYError::CameraNotOpenError);
        }
        let format = self.frame_format();
        self.state.exposure_start = None;
        Ok(format)
    }

    /// Returns the chip area including the overscan area.
    pub fn get_overscan_area(&self) -> (r: Result<CCDChipArea, QHYError>)
        ensures
            r == when_open(self@, self@.config.overscan_area),
    {
        if !self.state.is_open {
            return Err(QHYError::CameraNotOpenError);
        }
        Ok(self.state.config.overscan_area)
    }

    /// Returns the effective imaging area of the chip.
    pub fn get_effective_area(&self) -> (r: Result<CCDChipArea, QHYError>)
        ensures
            r == when_open(self@, self@.config.effective_area),
    {
        if !self.state.is_open {
            return Err(QHYError::CameraNotOpenError);
        }
        Ok(self.state.config.effective_area)
    }

    /// Starts a single frame exposure at time `now`; `exposure_param_us` is
    /// the exposure parameter in microseconds, when one is set.
    pub fn start_single_frame_exposure(&mut self, now: u64, exposure_param_us: Option<u64>) -> (r:
        Result<(), QHYError>)
        ensures
            r == when_open(old(self)@, ()),
            final(self)@ == updated_when_open(
                old(self)@,
                SimulatedCameraState {
                    exposure_start: Some(now),
                    exposure_duration_us: match exposure_param_us {
                        Some(us) => us,
                        None => old(self)@.exposure_duration_us,
                    },
                    ..old(self)@
                },
            ),
    {
        proof {
            use_type_invariant(&*self);
        }
        if !self.state.is_open {
            return Err(QHYError::CameraNotOpenError);
        }
        self.state.start_exposure(now, exposure_param_us);
        Ok(())
    }

    /// Returns the remaining exposure time in microseconds at time `now`.
    pub fn get_remaining_exposure_us(&self, now: u64) -> (r: Result<u32, QHYError>)
        ensures
            r == when_open(self@, self@.spec_remaining_at(now)),
    {
        if !self.state.is_open {
            return Err(QHYError::CameraNotOpenError);
        }
        Ok(self.state.get_remaining_exposure_us(now))
    }

    /// Stops the current exposure.
    pub fn stop_exposure(&mut self) -> (r: Result<(), QHYError>)
        ensures
            r == when_open(old(self)@, ()),
            final(self)@ == updated_when_open(
                old(self)@,
                SimulatedCameraState { exposure_start: None, ..old(self)@ },
            ),
    {
        proof {
            use_type_invariant(&*self);
        }
        if !self.state.is_open {
            return Err(QHYError::CameraNotOpenError);
        }
        self.state.cancel_exposure();
        Ok(())
    }

    /// Stops the current exposure and discards its image.
    pub fn abort_exposure_and_readout(&mut self) -> (r: Result<(), QHYError>)
        ensures
            r == when_open(old(self)@, ()),
            final(self)@ == updated_when_open(
                old(self)@,
                SimulatedCameraState { exposure_start: None, ..old(self)@ },
            ),
    {
        proof {
            use_type_invariant(&*self);
        }
        if !self.state.is_open {
            return Err(QHYError::CameraNotOpenError);
        }
        self.state.cancel_exposure();
        Ok(())
    }

    /// Returns information about a control: `None` when it is not available.
    pub fn is_control_available(&self, control: Control) -> (r: Option<u32>)
        ensures
            r == spec_control_availability(self@, control),
    {
        if !self.state.is_open {
            return None;
        }
        if self.state.config.supported_controls.contains_key(&control) {
            if control == Control::CamColor {
                return match self.state.config.bayer_mode {
                    Some(m) => Some(m.code()),
                    None => None,
                };
            }
            Some(1)
        } else {
            None
        }
    }

    /// Returns the resolution and transfer depth of the sensor.
    pub fn get_ccd_info(&self) -> (r: Result<ChipFormat, QHYError>)
        ensures
            r == when_open(self@, self@.config.chip_info),
    {
        if !self.state.is_open {
            return Err(QHYError::CameraNotOpenError);
        }
        Ok(self.state.config.chip_info)
    }

    /// Sets the transfer bit depth.
    pub fn set_bit_mode(&mut self, mode: u32) -> (r: Result<(), QHYError>)
        ensures
            r == when_open(old(self)@, ()),
            final(self)@ == updated_when_open(
                old(self)@,
                SimulatedCameraState { bit_depth: mode, ..old(self)@ },
            ),
    {
        proof {
            use_type_invariant(&*self);
        }
        if !self.state.is_open {
            return Err(QHYError::CameraNotOpenError);
        }
        self.state.bit_depth = mode;
        Ok(())
    }

    /// Returns `true` if a filter wheel is plugged into the camera.
    pub fn is_cfw_plugged_in(&self) -> (r: Result<bool, QHYError>)
        ensures
            r == when_open(self@, self@.config.filter_wheel_slots > 0),
    {
        if !self.state.is_open {
            return Err(QHYError::CameraNotOpenError);
        }
        Ok(self.state.config.filter_wheel_slots > 0)
    }

    /// Returns the filter wheel port value: the current position plus the
    /// ASCII offset.
    pub fn get_filter_wheel_port(&self) -> (r: Result<u32, QHYError>)
        ensures
            r == when_open(
                self@,
                (self@.filter_wheel_position + FILTER_WHEEL_ASCII_OFFSET) as u32,
            ),
            r is Ok ==> self@.filter_wheel_position + FILTER_WHEEL_ASCII_OFFSET <= u32::MAX,
    {
        proof {
            use_type_invariant(self);
        }
        if !self.state.is_open {
            return Err(QHYError::CameraNotOpenError);
        }
        Ok(self.state.filter_wheel_position + FILTER_WHEEL_ASCII_OFFSET)
    }

    /// Moves the filter wheel to the position that the port value `port`
    /// selects.
    pub fn set_filter_wheel_port(&mut self, port: u32) -> (r: Result<(), QHYError>)
        ensures
            r == when_open(old(self)@, ()),
            final(self)@ == updated_when_open(
                old(self)@,
                SimulatedCameraState { filter_wheel_position: spec_port_position(port), ..old(self)@ },
            ),
    {
        proof {
            use_type_invariant(&*self);
        }
        if !self.state.is_open {
            return Err(QHYError::CameraNotOpenError);
        }
        self.state.filter_wheel_position = port.saturating_sub(FILTER_WHEEL_ASCII_OFFSET);
        Ok(())
    }

    /// Sets the exposure duration in microseconds.
    pub fn set_exposure_duration(&mut self, duration_us: u64) -> (r: Result<(), QHYError>)
        ensures
            r == when_open(old(self)@, ()),
            final(self)@ == updated_when_open(
                old(self)@,
                SimulatedCameraState { exposure_duration_us: duration_us, ..old(self)@ },
            ),
    {
        proof {
            use_type_invariant(&*self);
        }
        if !self.state.is_open {
            return Err(QHYError::CameraNotOpenError);
        }
        self.state.exposure_duration_us = duration_us;
        Ok(())
    }
}

} // verus!
