//! Errors reported by the library.

use vstd::prelude::*;

use crate::control::Control;

verus! {

/// Errors that can occur when interacting with the QHYCCD SDK.
/// Most functions of the SDK return `u32::MAX` on error; where it is
/// different, it is noted on the function.
#[derive(Debug, Clone, Copy, PartialEq, Eq, Structural)]
pub enum QHYError {
    /// Error initializing QHYCCD SDK
    InitSDKError {
        /// the status code the SDK returned
        error_code: u32,
    },
    /// Error closing QHYCCD SDK
    CloseSDKError {
        /// the status code the SDK returned
        error_code: u32,
    },
    /// Error getting QHYCCD SDK version
    GetSDKVersionError {
        /// the status code the SDK returned
        error_code: u32,
    },
    /// Error scanning QHYCCD cameras
    ScanQHYCCDError,
    /// Error opening camera
    OpenCameraError,
    /// Error camera id
    GetCameraIdError {
        /// the status code the SDK returned
        error_code: u32,
    },
    /// Error getting firmware version
    GetFirmwareVersionError {
        /// the status code the SDK returned
        error_code: u32,
    },
    /// Error setting camera read mode
    SetReadoutModeError {
        /// the status code the SDK returned
        error_code: u32,
    },
    /// Error setting camera stream mode
    SetStreamModeError {
        /// the status code the SDK returned
        error_code: u32,
    },
    /// Error initializing camera
    InitCameraError {
        /// the status code the SDK returned
        error_code: u32,
    },
    /// Error getting camera CCD info
    GetCCDInfoError {
        /// the status code the SDK returned
        error_code: u32,
    },
    /// Error setting camera bit mode
    SetBitModeError {
        /// the status code the SDK returned
        error_code: u32,
    },
    /// Error setting camera debayer on/off
    SetDebayerError {
        /// the status code the SDK returned
        error_code: u32,
    },
    /// Error setting camera bin mode
    SetBinModeError {
        /// the status code the SDK returned
        error_code: u32,
    },
    /// Error setting camera sub frame
    SetRoiError {
        /// the status code the SDK returned
        error_code: u32,
    },
    /// Error getting camera parameter
    GetParameterError {
        /// the control that was asked for
        control: Control,
    },
    /// Error setting camera parameter
    SetParameterError {
        /// the status code the SDK returned
        error_code: u32,
    },
    /// Error starting camera live mode
    BeginLiveError {
        /// the status code the SDK returned
        error_code: u32,
    },
    /// Error stopping camera live mode
    EndLiveError {
        /// the status code the SDK returned
        error_code: u32,
    },
    /// Error getting image size
    GetImageSizeError,
    /// Error getting camera live frame
    GetLiveFrameError {
        /// the status code the SDK returned
        error_code: u32,
    },
    /// Error getting camera single frame
    GetSingleFrameError {
        /// the status code the SDK returned
        error_code: u32,
    },
    /// Error closing camera
    CloseCameraError {
        /// the status code the SDK returned
        error_code: u32,
    },
    /// Error getting camera overscan area
    GetOverscanAreaError {
        /// the status code the SDK returned
        error_code: u32,
    },
    /// Error getting camera effective area
    GetEffectiveAreaError {
        /// the status code the SDK returned
        error_code: u32,
    },
    /// Error getting determining support for camera feature
    IsControlAvailableError {
        /// the control that was asked for
        control: Control,
    },
    /// Error starting single frame exposure
    StartSingleFrameExposureError {
        /// the status code the SDK returned
        error_code: u32,
    },
    /// Error getting camera number of read modes
    GetNumberOfReadoutModesError,
    /// Error getting camera read mode name
    GetReadoutModeNameError,
    /// Error getting camera read mode resolution
    GetReadoutModeResolutionError,
    /// Error getting camera readout mode
    GetReadoutModeError,
    /// Error getting model of camera
    GetCameraModelError {
        /// the status code the SDK returned
        error_code: u32,
    },
    /// Error getting type of camera
    GetCameraTypeError,
    /// Error getting remaining exposure time
    GetExposureRemainingError,
    /// Error stopping exposure
    StopExposureError {
        /// the status code the SDK returned
        error_code: u32,
    },
    /// Error canceling exposure and readout
    AbortExposureAndReadoutError {
        /// the status code the SDK returned
        error_code: u32,
    },
    /// Error getting camera CFW plugged status
    IsCfwPluggedInError,
    /// Error camera is not open
    CameraNotOpenError,
    /// Error getting camera min, max, step for parameter
    GetMinMaxStepError {
        /// the control that was asked for
        control: Control,
    },
    /// Error getting filter wheel position
    GetCfwPositionError,
    /// Error setting filter wheel position
    SetCfwPositionError,
    /// Error opening the filter wheel
    OpenFilterWheelError,
    /// Error closing the filter wheel
    CloseFilterWheelError {
        /// the status code the SDK returned
        error_code: u32,
    },
    /// Error getting the number of filters
    GetNumberOfFiltersError,
}

} // verus!
