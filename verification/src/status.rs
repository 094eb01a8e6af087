//! Decoding of what the QHYCCD SDK reports back from a call: status codes,
//! sentinel values and raw output buffers become results of the library.

use vstd::prelude::*;

use crate::control::Control;
use crate::error::QHYError;
use crate::types::{CCDChipArea, ImageData, SDKVersion};

verus! {

/// Status code the SDK returns on success.
pub const QHYCCD_SUCCESS: u32 = 0;

/// Status code (and sentinel value) the SDK returns on error: `u32::MAX`.
pub const QHYCCD_ERROR: u32 = 4294967295;

/// The SDK calls whose failure is reported with the status code the SDK returned.
#[derive(Debug, Clone, Copy, PartialEq, Eq, Structural)]
pub enum SdkCall {
    /// `InitQHYCCDResource`
    InitResource,
    /// `ReleaseQHYCCDResource`
    ReleaseResource,
    /// `GetQHYCCDSDKVersion`
    GetSdkVersion,
    /// `GetQHYCCDId`
    GetCameraId,
    /// `GetQHYCCDFWVersion`
    GetFirmwareVersion,
    /// `SetQHYCCDReadMode`
    SetReadoutMode,
    /// `SetQHYCCDStreamMode`
    SetStreamMode,
    /// `InitQHYCCD`
    InitCamera,
    /// `GetQHYCCDChipInfo`
    GetChipInfo,
    /// `SetQHYCCDBitsMode`
    SetBitMode,
    /// `SetQHYCCDDebayerOnOff`
    SetDebayer,
    /// `SetQHYCCDBinMode`
    SetBinMode,
    /// `SetQHYCCDResolution`
    SetRoi,
    /// `SetQHYCCDParam`
    SetParameter,
    /// `BeginQHYCCDLive`
    BeginLive,
    /// `StopQHYCCDLive`
    EndLive,
    /// `GetQHYCCDLiveFrame`
    GetLiveFrame,
    /// `GetQHYCCDSingleFrame`
    GetSingleFrame,
    /// `CloseQHYCCD`
    CloseCamera,
    /// `GetQHYCCDOverScanArea`
    GetOverscanArea,
    /// `GetQHYCCDEffectiveArea`
    GetEffectiveArea,
    /// `ExpQHYCCDSingleFrame`
    StartSingleFrameExposure,
    /// `GetQHYCCDModel`
    GetModel,
    /// `CancelQHYCCDExposing`
    StopExposure,
    /// `CancelQHYCCDExposingAndReadout`
    AbortExposureAndReadout,
}

/// The error the library reports when `call` fails with status `code`.
pub open spec fn spec_call_error(call: SdkCall, code: u32) -> QHYError {
    match call {
        SdkCall::InitResource => QHYError::InitSDKError { error_code: code },
        SdkCall::ReleaseResource => QHYError::CloseSDKError { error_code: code },
        SdkCall::GetSdkVersion => QHYError::GetSDKVersionError { error_code: code },
        SdkCall::GetCameraId => QHYError::GetCameraIdError { error_code: code },
        SdkCall::GetFirmwareVersion => QHYError::GetFirmwareVersionError { error_code: code },
        SdkCall::SetReadoutMode => QHYError::SetReadoutModeError { error_code: code },
        SdkCall::SetStreamMode => QHYError::SetStreamModeError { error_code: code },
        SdkCall::InitCamera => QHYError::InitCameraError { error_code: code },
        SdkCall::GetChipInfo => QHYError::GetCCDInfoError { error_code: code },
        SdkCall::SetBitMode => QHYError::SetBitModeError { error_code: code },
        SdkCall::SetDebayer => QHYError::SetDebayerError { error_code: code },
        SdkCall::SetBinMode => QHYError::SetBinModeError { error_code: code },
        SdkCall::SetRoi => QHYError::SetRoiError { error_code: code },
        SdkCall::SetParameter => QHYError::SetParameterError { error_code: code },
        SdkCall::BeginLive => QHYError::BeginLiveError { error_code: code },
        SdkCall::EndLive => QHYError::EndLiveError { error_code: code },
        SdkCall::GetLiveFrame => QHYError::GetLiveFrameError { error_code: code },
        SdkCall::GetSingleFrame => QHYError::GetSingleFrameError { error_code: code },
        SdkCall::CloseCamera => QHYError::CloseCameraError { error_code: code },
        SdkCall::GetOverscanArea => QHYError::GetOverscanAreaError { error_code: code },
        SdkCall::GetEffectiveArea => QHYError::GetEffectiveAreaError { error_code: code },
        SdkCall::StartSingleFrameExposure => QHYError::StartSingleFrameExposureError {
            error_code: code,
        },
        SdkCall::GetModel => QHYError::GetCameraModelError { error_code: code },
        SdkCall::StopExposure => QHYError::StopExposureError { error_code: code },
        SdkCall::AbortExposureAndReadout => QHYError::AbortExposureAndReadoutError {
            error_code: code,
        },
    }
}

/// Returns the error the library reports when `call` fails with status `code`.
pub fn call_error(call: SdkCall, code: u32) -> (e: QHYError)
    ensures
        e == spec_call_error(call, code),
{
    match call {
        SdkCall::InitResource => QHYError::InitSDKError { error_code: code },
        SdkCall::ReleaseResource => QHYError::CloseSDKError { error_code: code },
        SdkCall::GetSdkVersion => QHYError::GetSDKVersionError { error_code: code },
        SdkCall::GetCameraId => QHYError::GetCameraIdError { error_code: code },
        SdkCall::GetFirmwareVersion => QHYError::GetFirmwareVersionError { error_code: code },
        SdkCall::SetReadoutMode => QHYError::SetReadoutModeError { error_code: code },
        SdkCall::SetStreamMode => QHYError::SetStreamModeError { error_code: code },
        SdkCall::InitCamera => QHYError::InitCameraError { error_code: code },
        SdkCall::GetChipInfo => QHYError::GetCCDInfoError { error_code: code },
        SdkCall::SetBitMode => QHYError::SetBitModeError { error_code: code },
        SdkCall::SetDebayer => QHYError::SetDebayerError { error_code: code },
        SdkCall::SetBinMode => QHYError::SetBinModeError { error_code: code },
        SdkCall::SetRoi => QHYError::SetRoiError { error_code: code },
        SdkCall::SetParameter => QHYError::SetParameterError { error_code: code },
        SdkCall::BeginLive => QHYError::BeginLiveError { error_code: code },
        SdkCall::EndLive => QHYError::EndLiveError { error_code: code },
        SdkCall::GetLiveFrame => QHYError::GetLiveFrameError { error_code: code },
        SdkCall::GetSingleFrame => QHYError::GetSingleFrameError { error_code: code },
        SdkCall::CloseCamera => QHYError::CloseCameraError { error_code: code },
        SdkCall::GetOverscanArea => QHYError::GetOverscanAreaError { error_code: code },
        SdkCall::GetEffectiveArea => QHYError::GetEffectiveAreaError { error_code: code },
        SdkCall::StartSingleFrameExposure => QHYError::StartSingleFrameExposureError {
            error_code: code,
        },
        SdkCall::GetModel => QHYError::GetCameraModelError { error_code: code },
        SdkCall::StopExposure => QHYError::StopExposureError { error_code: code },
        SdkCall::AbortExposureAndReadout => QHYError::AbortExposureAndReadoutError {
            error_code: code,
        },
    }
}

/// What a call that must report success amounts to: `Ok` exactly when the
/// status is `QHYCCD_SUCCESS`, else the call's error carrying the status.
pub open spec fn spec_status_result(call: SdkCall, status: u32) -> Result<(), QHYError> {
    if status == QHYCCD_SUCCESS {
        Ok(())
    } else {
        Err(spec_call_error(call, status))
    }
}

/// Checks the status returned by `call`.
pub fn check_status(call: SdkCall, status: u32) -> (r: Result<(), QHYError>)
    ensures
        r == spec_status_result(call, status),
{
    if status == QHYCCD_SUCCESS {
        Ok(())
    } else {
        Err(call_error(call, status))
    }
}

/// The SDK version read by `GetQHYCCDSDKVersion`.
pub fn sdk_version_result(status: u32, year: u32, month: u32, day: u32, subday: u32) -> (r:
    Result<SDKVersion, QHYError>)
    ensures
        status == QHYCCD_SUCCESS ==> r == Ok::<SDKVersion, QHYError>(
            SDKVersion { year, month, day, subday },
        ),
        status != QHYCCD_SUCCESS ==> r == Err::<SDKVersion, QHYError>(
            QHYError::GetSDKVersionError { error_code: status },
        ),
{
    match check_status(SdkCall::GetSdkVersion, status) {
        Ok(()) => Ok(SDKVersion { year, month, day, subday }),
        Err(e) => Err(e),
    }
}

/// The number of connected cameras reported by `ScanQHYCCD`; `QHYCCD_ERROR`
/// means the scan failed.
pub fn camera_count_result(raw: u32) -> (r: Result<u32, QHYError>)
    ensures
        raw == QHYCCD_ERROR ==> r == Err::<u32, QHYError>(QHYError::ScanQHYCCDError),
        raw != QHYCCD_ERROR ==> r == Ok::<u32, QHYError>(raw),
{
    if raw == QHYCCD_ERROR {
        Err(QHYError::ScanQHYCCDError)
    } else {
        Ok(raw)
    }
}

/// A sensor rectangle read by `GetQHYCCDOverScanArea` or `GetQHYCCDEffectiveArea`
/// (`call` tells which).
pub fn chip_area_result(
    call: SdkCall,
    status: u32,
    start_x: u32,
    start_y: u32,
    width: u32,
    height: u32,
) -> (r: Result<CCDChipArea, QHYError>)
    ensures
        status == QHYCCD_SUCCESS ==> r == Ok::<CCDChipArea, QHYError>(
            CCDChipArea { start_x, start_y, width, height },
        ),
        status != QHYCCD_SUCCESS ==> r == Err::<CCDChipArea, QHYError>(
            spec_call_error(call, status),
        ),
{
    match check_status(call, status) {
        Ok(()) => Ok(CCDChipArea { start_x, start_y, width, height }),
        Err(e) => Err(e),
    }
}

/// A frame read by `GetQHYCCDLiveFrame` or `GetQHYCCDSingleFrame` (`call` tells
/// which) into `data`.
pub fn frame_result(
    call: SdkCall,
    status: u32,
    data: Vec<u8>,
    width: u32,
    height: u32,
    bits_per_pixel: u32,
    channels: u32,
) -> (r: Result<ImageData, QHYError>)
    ensures
        status == QHYCCD_SUCCESS <==> r is Ok,
        r matches Ok(image) ==> image.data@ == data@ && image.width == width && image.height
            == height && image.bits_per_pixel == bits_per_pixel && image.channels == channels,
        r matches Err(e) ==> e == spec_call_error(call, status),
{
    match check_status(call, status) {
        Ok(()) => Ok(ImageData { data, width, height, bits_per_pixel, channels }),
        Err(e) => Err(e),
    }
}

/// The number of readout modes read by `GetQHYCCDNumberOfReadModes`; only the
/// status `QHYCCD_ERROR` means failure.
pub fn readout_mode_count_result(status: u32, count: u32) -> (r: Result<u32, QHYError>)
    ensures
        status == QHYCCD_ERROR ==> r == Err::<u32, QHYError>(
            QHYError::GetNumberOfReadoutModesError,
        ),
        status != QHYCCD_ERROR ==> r == Ok::<u32, QHYError>(count),
{
    if status == QHYCCD_ERROR {
        Err(QHYError::GetNumberOfReadoutModesError)
    } else {
        Ok(count)
    }
}

/// Checks the status of `GetQHYCCDReadModeName`; only `QHYCCD_ERROR` means failure.
pub fn readout_mode_name_status(status: u32) -> (r: Result<(), QHYError>)
    ensures
        status == QHYCCD_ERROR ==> r == Err::<(), QHYError>(QHYError::GetReadoutModeNameError),
        status != QHYCCD_ERROR ==> r == Ok::<(), QHYError>(()),
{
    if status == QHYCCD_ERROR {
        Err(QHYError::GetReadoutModeNameError)
    } else {
        Ok(())
    }
}

/// The resolution of a readout mode read by `GetQHYCCDReadModeResolution`.
pub fn readout_mode_resolution_result(status: u32, width: u32, height: u32) -> (r: Result<
    (u32, u32),
    QHYError,
>)
    ensures
        status == QHYCCD_SUCCESS ==> r == Ok::<(u32, u32), QHYError>((width, height)),
        status != QHYCCD_SUCCESS ==> r == Err::<(u32, u32), QHYError>(
            QHYError::GetReadoutModeResolutionError,
        ),
{
    if status == QHYCCD_SUCCESS {
        Ok((width, height))
    } else {
        Err(QHYError::GetReadoutModeResolutionError)
    }
}

/// The current readout mode read by `GetQHYCCDReadMode`.
pub fn readout_mode_result(status: u32, mode: u32) -> (r: Result<u32, QHYError>)
    ensures
        status == QHYCCD_SUCCESS ==> r == Ok::<u32, QHYError>(mode),
        status != QHYCCD_SUCCESS ==> r == Err::<u32, QHYError>(QHYError::GetReadoutModeError),
{
    if status == QHYCCD_SUCCESS {
        Ok(mode)
    } else {
        Err(QHYError::GetReadoutModeError)
    }
}

/// The camera type reported by `GetQHYCCDType`; `QHYCCD_ERROR` means failure.
pub fn camera_type_result(raw: u32) -> (r: Result<u32, QHYError>)
    ensures
        raw == QHYCCD_ERROR ==> r == Err::<u32, QHYError>(QHYError::GetCameraTypeError),
        raw != QHYCCD_ERROR ==> r == Ok::<u32, QHYError>(raw),
{
    if raw == QHYCCD_ERROR {
        Err(QHYError::GetCameraTypeError)
    } else {
        Ok(raw)
    }
}

/// The image size in bytes reported by `GetQHYCCDMemLength`; `QHYCCD_ERROR`
/// means failure.
pub fn image_size_result(raw: u32) -> (r: Result<usize, QHYError>)
    ensures
        raw == QHYCCD_ERROR ==> r == Err::<usize, QHYError>(QHYError::GetImageSizeError),
        raw != QHYCCD_ERROR ==> r == Ok::<usize, QHYError>(raw as usize),
{
    if raw == QHYCCD_ERROR {
        Err(QHYError::GetImageSizeError)
    } else {
        Ok(raw as usize)
    }
}

/// The remaining exposure time in microseconds reported by
/// `GetQHYCCDExposureRemaining`; the SDK reports values up to 100 while the
/// exposure finishes, and those count as 0.
pub fn remaining_exposure_result(raw: u32) -> (r: Result<u32, QHYError>)
    ensures
        raw == QHYCCD_ERROR ==> r == Err::<u32, QHYError>(QHYError::GetExposureRemainingError),
        raw <= 100 ==> r == Ok::<u32, QHYError>(0),
        100 < raw < QHYCCD_ERROR ==> r == Ok::<u32, QHYError>(raw),
{
    if raw == QHYCCD_ERROR {
        Err(QHYError::GetExposureRemainingError)
    } else if raw <= 100 {
        Ok(0)
    } else {
        Ok(raw)
    }
}

/// Whether a filter wheel is plugged in, from the status of `IsQHYCCDCFWPlugged`:
/// success means yes, `QHYCCD_ERROR` means no, anything else is a failure.
pub fn cfw_plugged_result(raw: u32) -> (r: Result<bool, QHYError>)
    ensures
        raw == QHYCCD_SUCCESS ==> r == Ok::<bool, QHYError>(true),
        raw == QHYCCD_ERROR ==> r == Ok::<bool, QHYError>(false),
        raw != QHYCCD_SUCCESS && raw != QHYCCD_ERROR ==> r == Err::<bool, QHYError>(
            QHYError::IsCfwPluggedInError,
        ),
{
    if raw == QHYCCD_SUCCESS {
        Ok(true)
    } else if raw == QHYCCD_ERROR {
        Ok(false)
    } else {
        Err(QHYError::IsCfwPluggedInError)
    }
}

/// What `IsQHYCCDControlAvailable` reports: `None` for `QHYCCD_ERROR` (the
/// control is not available), else the information the SDK gave.
pub fn control_availability(raw: u32) -> (r: Option<u32>)
    ensures
        raw == QHYCCD_ERROR ==> r is None,
        raw != QHYCCD_ERROR ==> r == Some(raw),
{
    if raw == QHYCCD_ERROR {
        None
    } else {
        Some(raw)
    }
}

/// Checks the status of `GetQHYCCDParamMinMaxStep` for `control`.
pub fn min_max_step_status(control: Control, status: u32) -> (r: Result<(), QHYError>)
    ensures
        status == QHYCCD_SUCCESS ==> r == Ok::<(), QHYError>(()),
        status != QHYCCD_SUCCESS ==> r == Err::<(), QHYError>(
            QHYError::GetMinMaxStepError { control },
        ),
{
    if status == QHYCCD_SUCCESS {
        Ok(())
    } else {
        Err(QHYError::GetMinMaxStepError { control })
    }
}

} // verus!
