//! Decoding of SDK results, enum codes and pixel layouts.

use qhyccd::control::Control;
use qhyccd::error::QHYError;
use qhyccd::filter_wheel::position_to_port;
use qhyccd::firmware::{firmware_version_result, format_firmware_version};
use qhyccd::sdk::{scan_lists, scan_outcome, scan_step, ScanLists, ScanOutcome};
use qhyccd::simulation::image::{
    clamp_to_u16, clamp_to_u8, fill_pixel_16bit, fill_pixel_8bit, is_light_block, sample_buffer,
    ImagePattern,
};
use qhyccd::status::{
    camera_count_result, camera_type_result, cfw_plugged_result, check_status, chip_area_result,
    control_availability, frame_result, image_size_result, min_max_step_status,
    readout_mode_count_result, readout_mode_name_status, readout_mode_resolution_result,
    readout_mode_result, remaining_exposure_result, sdk_version_result, SdkCall, QHYCCD_ERROR,
    QHYCCD_SUCCESS,
};
use qhyccd::types::{BayerMode, CCDChipArea, SDKVersion, StreamMode};

#[test]
fn get_firmware_version_success() {
    let res = firmware_version_result(QHYCCD_SUCCESS, 0x01, 0x23);
    assert!(res.is_ok());
    assert_eq!(res.unwrap(), "Firmware version: 2016_1_35");

    let res = firmware_version_result(QHYCCD_SUCCESS, 0xA1, 0x11);
    assert!(res.is_ok());
    assert_eq!(res.unwrap(), "Firmware version: 2010_1_17");
}

#[test]
fn get_firmware_version_fail() {
    let res = firmware_version_result(QHYCCD_ERROR, 0x01, 0x23);
    assert_eq!(
        res,
        Err(QHYError::GetFirmwareVersionError {
            error_code: QHYCCD_ERROR
        })
    );
}

#[test]
fn firmware_version_edge_bytes() {
    assert_eq!(format_firmware_version(0x00, 0x00), "Firmware version: 2016_0_0");
    assert_eq!(format_firmware_version(0x9F, 0xFF), "Firmware version: 2025_15_255");
    assert_eq!(format_firmware_version(0xFF, 0x09), "Firmware version: 2015_15_9");
}

#[test]
fn get_remaining_exposure_us_success() {
    assert_eq!(remaining_exposure_result(42), Ok(0));
    assert_eq!(remaining_exposure_result(100), Ok(0));
    assert_eq!(remaining_exposure_result(101), Ok(101));
    assert_eq!(remaining_exposure_result(42000), Ok(42000));
}

#[test]
fn get_remaining_exposure_us_fail() {
    assert_eq!(
        remaining_exposure_result(QHYCCD_ERROR),
        Err(QHYError::GetExposureRemainingError)
    );
}

#[test]
fn check_status_maps_each_call() {
    assert_eq!(check_status(SdkCall::SetStreamMode, QHYCCD_SUCCESS), Ok(()));
    assert_eq!(
        check_status(SdkCall::SetStreamMode, QHYCCD_ERROR),
        Err(QHYError::SetStreamModeError {
            error_code: QHYCCD_ERROR
        })
    );
    assert_eq!(
        check_status(SdkCall::SetReadoutMode, 7),
        Err(QHYError::SetReadoutModeError { error_code: 7 })
    );
    assert_eq!(
        check_status(SdkCall::InitCamera, QHYCCD_ERROR),
        Err(QHYError::InitCameraError {
            error_code: QHYCCD_ERROR
        })
    );
    assert_eq!(
        check_status(SdkCall::CloseCamera, 3),
        Err(QHYError::CloseCameraError { error_code: 3 })
    );
    assert_eq!(
        check_status(SdkCall::InitResource, 1),
        Err(QHYError::InitSDKError { error_code: 1 })
    );
    assert_eq!(
        check_status(SdkCall::AbortExposureAndReadout, 2),
        Err(QHYError::AbortExposureAndReadoutError { error_code: 2 })
    );
}

#[test]
fn sdk_version_decoding() {
    assert_eq!(
        sdk_version_result(QHYCCD_SUCCESS, 25, 9, 29, 0),
        Ok(SDKVersion {
            year: 25,
            month: 9,
            day: 29,
            subday: 0
        })
    );
    assert_eq!(
        sdk_version_result(QHYCCD_ERROR, 25, 9, 29, 0),
        Err(QHYError::GetSDKVersionError {
            error_code: QHYCCD_ERROR
        })
    );
}

#[test]
fn scan_decoding() {
    assert_eq!(camera_count_result(2), Ok(2));
    assert_eq!(camera_count_result(QHYCCD_ERROR), Err(QHYError::ScanQHYCCDError));
    assert_eq!(scan_outcome(true, Ok(true), true), ScanOutcome::CameraWithFilterWheel);
    assert_eq!(scan_outcome(true, Ok(false), true), ScanOutcome::Camera);
    assert_eq!(
        scan_outcome(true, Err(QHYError::IsCfwPluggedInError), true),
        ScanOutcome::Camera
    );
    assert_eq!(scan_outcome(false, Ok(true), true), ScanOutcome::Skipped);
    assert_eq!(scan_outcome(true, Ok(true), false), ScanOutcome::Skipped);
}

#[test]
fn area_and_frame_decoding() {
    assert_eq!(
        chip_area_result(SdkCall::GetOverscanArea, QHYCCD_SUCCESS, 1, 2, 3, 4),
        Ok(CCDChipArea {
            start_x: 1,
            start_y: 2,
            width: 3,
            height: 4
        })
    );
    assert_eq!(
        chip_area_result(SdkCall::GetEffectiveArea, QHYCCD_ERROR, 1, 2, 3, 4),
        Err(QHYError::GetEffectiveAreaError {
            error_code: QHYCCD_ERROR
        })
    );
    let image = frame_result(SdkCall::GetLiveFrame, QHYCCD_SUCCESS, vec![1, 2, 3], 3, 1, 8, 1)
        .unwrap();
    assert_eq!(image.data, vec![1, 2, 3]);
    assert_eq!(image.width, 3);
    assert_eq!(image.height, 1);
    assert_eq!(image.bits_per_pixel, 8);
    assert_eq!(image.channels, 1);
    let failed = frame_result(SdkCall::GetSingleFrame, 5, vec![0; 4], 2, 2, 8, 1);
    assert_eq!(
        failed.err(),
        Some(QHYError::GetSingleFrameError { error_code: 5 })
    );
}

#[test]
fn readout_mode_decoding() {
    assert_eq!(readout_mode_count_result(QHYCCD_SUCCESS, 2), Ok(2));
    assert_eq!(readout_mode_count_result(1, 2), Ok(2));
    assert_eq!(
        readout_mode_count_result(QHYCCD_ERROR, 2),
        Err(QHYError::GetNumberOfReadoutModesError)
    );
    assert_eq!(readout_mode_name_status(QHYCCD_SUCCESS), Ok(()));
    assert_eq!(
        readout_mode_name_status(QHYCCD_ERROR),
        Err(QHYError::GetReadoutModeNameError)
    );
    assert_eq!(
        readout_mode_resolution_result(QHYCCD_SUCCESS, 3072, 2048),
        Ok((3072, 2048))
    );
    assert_eq!(
        readout_mode_resolution_result(1, 3072, 2048),
        Err(QHYError::GetReadoutModeResolutionError)
    );
    assert_eq!(readout_mode_result(QHYCCD_SUCCESS, 1), Ok(1));
    assert_eq!(readout_mode_result(QHYCCD_ERROR, 1), Err(QHYError::GetReadoutModeError));
}

#[test]
fn get_type_and_image_size_decoding() {
    assert_eq!(camera_type_result(42), Ok(42));
    assert_eq!(camera_type_result(QHYCCD_ERROR), Err(QHYError::GetCameraTypeError));
    assert_eq!(image_size_result(42), Ok(42));
    assert_eq!(image_size_result(QHYCCD_ERROR), Err(QHYError::GetImageSizeError));
}

#[test]
fn cfw_and_control_decoding() {
    assert_eq!(cfw_plugged_result(QHYCCD_SUCCESS), Ok(true));
    assert_eq!(cfw_plugged_result(QHYCCD_ERROR), Ok(false));
    assert_eq!(cfw_plugged_result(7), Err(QHYError::IsCfwPluggedInError));
    assert_eq!(control_availability(QHYCCD_ERROR), None);
    assert_eq!(control_availability(0), Some(0));
    assert_eq!(control_availability(4), Some(4));
    assert_eq!(min_max_step_status(Control::Gain, QHYCCD_SUCCESS), Ok(()));
    assert_eq!(
        min_max_step_status(Control::Gain, QHYCCD_ERROR),
        Err(QHYError::GetMinMaxStepError {
            control: Control::Gain
        })
    );
}

#[test]
fn control_codes() {
    assert_eq!(Control::Brightness.code(), 0);
    assert_eq!(Control::Exposure.code(), 8);
    assert_eq!(Control::CfwPort.code(), 17);
    assert_eq!(Control::CamColor.code(), 20);
    assert_eq!(Control::CfwSlotsNum.code(), 44);
    assert_eq!(Control::Qhyccd3aAutoexposure.code(), 39);
    assert_eq!(Control::MaxId.code(), 86);
    assert_eq!(Control::Autowhitebalance.code(), 1024);
    assert_eq!(Control::GaindB.code(), 1029);
}

#[test]
fn stream_and_bayer_codes() {
    assert_eq!(StreamMode::SingleFrameMode.code(), 0);
    assert_eq!(StreamMode::LiveMode.code(), 1);
    assert_eq!(BayerMode::GBRG.code(), 1);
    assert_eq!(BayerMode::RGGB.code(), 4);
    assert_eq!(BayerMode::try_from(1), Ok(BayerMode::GBRG));
    assert_eq!(BayerMode::try_from(2), Ok(BayerMode::GRBG));
    assert_eq!(BayerMode::try_from(3), Ok(BayerMode::BGGR));
    assert_eq!(BayerMode::try_from(4), Ok(BayerMode::RGGB));
    assert_eq!(BayerMode::try_from(0), Err(()));
    assert_eq!(BayerMode::try_from(5), Err(()));
}

#[test]
fn filter_wheel_ports() {
    assert_eq!(position_to_port(0), 48);
    assert_eq!(position_to_port(3), 51);
}

#[test]
fn test_image_pattern_default() {
    assert_eq!(ImagePattern::default(), ImagePattern::Gradient);
}

#[test]
fn sample_buffers_and_pixels() {
    let data = sample_buffer(100, 100, 1, 1);
    assert_eq!(data.len(), 10000);
    assert_eq!(sample_buffer(100, 100, 1, 2).len(), 20000);
    assert_eq!(sample_buffer(200, 200, 1, 2).len(), 80000);
    assert_eq!(sample_buffer(100, 100, 3, 1).len(), 30000);
    assert_eq!(sample_buffer(100, 100, 3, 2).len(), 60000);
    assert!(data.iter().all(|b| *b == 0));

    let mut data = sample_buffer(2, 1, 3, 1);
    fill_pixel_8bit(&mut data, 3, 3, 9);
    assert_eq!(data, vec![0, 0, 0, 9, 9, 9]);

    let mut data = sample_buffer(2, 1, 2, 2);
    fill_pixel_16bit(&mut data, 2, 2, 0x1234);
    assert_eq!(data, vec![0, 0, 0, 0, 0x34, 0x12, 0x34, 0x12]);
    assert_eq!(u16::from_le_bytes([data[4], data[5]]), 0x1234);
}

#[test]
fn clamping_and_checkerboard() {
    assert_eq!(clamp_to_u8(-5), 0);
    assert_eq!(clamp_to_u8(300), 255);
    assert_eq!(clamp_to_u8(17), 17);
    assert_eq!(clamp_to_u16(-1), 0);
    assert_eq!(clamp_to_u16(70000), 65535);
    assert_eq!(clamp_to_u16(1000), 1000);
    assert!(is_light_block(0, 0));
    assert!(!is_light_block(64, 0));
    assert!(is_light_block(64, 64));
    assert!(!is_light_block(63, 64));
}

#[test]
fn test_scan_step() {
    let lists = ScanLists { cameras: vec![0], filter_wheels: vec![] };
    let lists = scan_step(lists, 1, ScanOutcome::Skipped);
    assert_eq!(lists.cameras, vec![0]);
    let lists = scan_step(lists, 2, ScanOutcome::CameraWithFilterWheel);
    assert_eq!(lists.cameras, vec![0, 2]);
    assert_eq!(lists.filter_wheels, vec![2]);
    let lists = scan_step(lists, 3, ScanOutcome::Camera);
    assert_eq!(lists.cameras, vec![0, 2, 3]);
    assert_eq!(lists.filter_wheels, vec![2]);
}

#[test]
fn test_scan_lists() {
    let outcomes = vec![
        ScanOutcome::Camera,
        ScanOutcome::Skipped,
        ScanOutcome::CameraWithFilterWheel,
        ScanOutcome::Skipped,
        ScanOutcome::CameraWithFilterWheel,
        ScanOutcome::Camera,
    ];
    let lists = scan_lists(&outcomes);
    assert_eq!(lists.cameras, vec![0, 2, 4, 5]);
    assert_eq!(lists.filter_wheels, vec![2, 4]);

    let empty = scan_lists(&Vec::new());
    assert!(empty.cameras.is_empty());
    assert!(empty.filter_wheels.is_empty());
}
