//! Runtime state and configuration of simulated cameras.

use qhyccd::control::Control;
use qhyccd::simulation::config::{default_simulated_camera, ControlSet, SimulatedCameraConfig};
use qhyccd::simulation::state::SimulatedCameraState;
use qhyccd::types::{BayerMode, ChipFormat};

#[test]
fn test_new_state() {
    let config = SimulatedCameraConfig::default();
    let state = SimulatedCameraState::new(config);

    assert!(!state.is_open);
    assert!(!state.is_initialized);
    assert_eq!(state.binning, (1, 1));
}

#[test]
fn test_image_dimensions() {
    let config = SimulatedCameraConfig::default();
    let mut state = SimulatedCameraState::new(config);

    let (w, h) = state.get_current_image_dimensions();
    assert_eq!(w, 3072);
    assert_eq!(h, 2048);

    state.binning = (2, 2);
    let (w, h) = state.get_current_image_dimensions();
    assert_eq!(w, 1536);
    assert_eq!(h, 1024);
}

#[test]
fn test_buffer_size() {
    let config = SimulatedCameraConfig::default();
    let state = SimulatedCameraState::new(config);
    assert_eq!(state.calculate_buffer_size(), 12_582_912);
}

#[test]
fn test_state_test_exposure_timing() {
    let config = SimulatedCameraConfig::default();
    let mut state = SimulatedCameraState::new(config);

    state.exposure_duration_us = 1000;
    state.start_exposure(500, None);

    assert!(!state.is_exposure_complete(500));
    assert!(state.get_remaining_exposure_us(500) > 0);

    assert!(state.is_exposure_complete(2500));
    assert_eq!(state.get_remaining_exposure_us(2500), 0);
}

#[test]
fn test_cancel_exposure() {
    let config = SimulatedCameraConfig::default();
    let mut state = SimulatedCameraState::new(config);

    state.exposure_duration_us = 1_000_000;
    state.start_exposure(0, None);

    assert!(!state.is_exposure_complete(0));
    assert!(state.exposure_start.is_some());

    state.cancel_exposure();

    assert!(state.exposure_start.is_none());
    assert!(state.is_exposure_complete(0));
    assert_eq!(state.get_remaining_exposure_us(0), 0);
}

#[test]
fn test_get_channels_mono() {
    let state = SimulatedCameraState::new(SimulatedCameraConfig::default());
    assert_eq!(state.get_channels(), 1);
}

#[test]
fn test_get_channels_color_no_debayer() {
    let config = SimulatedCameraConfig::default().with_color(BayerMode::RGGB);
    let state = SimulatedCameraState::new(config);
    assert_eq!(state.get_channels(), 1);
}

#[test]
fn test_get_channels_color_debayer() {
    let config = SimulatedCameraConfig::default().with_color(BayerMode::RGGB);
    let mut state = SimulatedCameraState::new(config);
    state.debayer_enabled = true;
    assert_eq!(state.get_channels(), 3);
}

#[test]
fn test_bytes_per_pixel_8bit() {
    let mut state = SimulatedCameraState::new(SimulatedCameraConfig::default());
    state.bit_depth = 8;
    assert_eq!(state.get_bytes_per_pixel(), 1);
}

#[test]
fn test_bytes_per_pixel_16bit() {
    let mut state = SimulatedCameraState::new(SimulatedCameraConfig::default());
    state.bit_depth = 16;
    assert_eq!(state.get_bytes_per_pixel(), 2);
    state.bit_depth = 12;
    assert_eq!(state.get_bytes_per_pixel(), 2);
}

#[test]
fn test_buffer_size_with_binning_and_channels() {
    let config = SimulatedCameraConfig::default().with_color(BayerMode::RGGB);
    let mut state = SimulatedCameraState::new(config);
    state.binning = (2, 2);
    state.bit_depth = 8;
    state.debayer_enabled = true;
    assert_eq!(state.calculate_buffer_size(), 4_718_592);
}

#[test]
fn test_remaining_exposure_no_exposure_started() {
    let state = SimulatedCameraState::new(SimulatedCameraConfig::default());
    assert_eq!(state.get_remaining_exposure_us(123), 0);
    assert!(state.is_exposure_complete(123));
}

#[test]
fn test_start_exposure_uses_parameter() {
    let mut state = SimulatedCameraState::new(SimulatedCameraConfig::default());
    state.start_exposure(0, Some(5_000_000));
    assert_eq!(state.exposure_duration_us, 5_000_000);
}

#[test]
fn checked_buffer_size_refuses_zero_binning_and_overflow() {
    let mut state = SimulatedCameraState::new(SimulatedCameraConfig::default());
    assert_eq!(state.checked_buffer_size(), Some(12_582_912));
    state.binning = (0, 1);
    assert_eq!(state.checked_buffer_size(), None);
    state.binning = (1, 1);
    state.roi.width = 65536;
    state.roi.height = 65536;
    assert_eq!(state.checked_buffer_size(), None);
    state.roi.height = 32767;
    state.bit_depth = 8;
    assert_eq!(state.checked_buffer_size(), Some(65536 * 32767));
}

#[test]
fn remaining_exposure_counts_down() {
    let mut state = SimulatedCameraState::new(SimulatedCameraConfig::default());
    state.start_exposure(1000, Some(300));
    assert_eq!(state.get_remaining_exposure_us(1000), 300);
    assert_eq!(state.get_remaining_exposure_us(1100), 200);
    assert_eq!(state.get_remaining_exposure_us(1300), 0);
    assert_eq!(state.get_remaining_exposure_us(900), 300);
}

#[test]
fn config_tests_test_default_config() {
    let config = SimulatedCameraConfig::default();
    assert_eq!(config.id, "SIM-001");
    assert_eq!(config.filter_wheel_slots, 0);
    assert!(!config.has_cooler);
    assert!(config.bayer_mode.is_none());
}

#[test]
fn config_tests_test_with_filter_wheel() {
    let config = SimulatedCameraConfig::default().with_filter_wheel(5);
    assert_eq!(config.filter_wheel_slots, 5);
    assert!(config.supported_controls.contains_key(&Control::CfwPort));
    assert!(config.supported_controls.contains_key(&Control::CfwSlotsNum));
}

#[test]
fn config_tests_test_with_cooler() {
    let config = SimulatedCameraConfig::default().with_cooler();
    assert!(config.has_cooler);
    assert!(config.supported_controls.contains_key(&Control::Cooler));
    assert!(config.supported_controls.contains_key(&Control::CurTemp));
}

#[test]
fn config_tests_test_with_color() {
    let config = SimulatedCameraConfig::default().with_color(BayerMode::RGGB);
    assert_eq!(config.bayer_mode, Some(BayerMode::RGGB));
    assert!(config.supported_controls.contains_key(&Control::CamColor));
}

#[test]
fn config_tests_test_builder_chaining() {
    let config = SimulatedCameraConfig::default()
        .with_id("TEST-001")
        .with_model("Test Camera")
        .with_filter_wheel(7)
        .with_cooler()
        .with_color(BayerMode::GBRG);

    assert_eq!(config.id, "TEST-001");
    assert_eq!(config.model, "Test Camera");
    assert_eq!(config.filter_wheel_slots, 7);
    assert!(config.has_cooler);
    assert_eq!(config.bayer_mode, Some(BayerMode::GBRG));
}

#[test]
fn test_with_model() {
    let config = SimulatedCameraConfig::default().with_model("QHY600M-PRO");
    assert_eq!(config.model, "QHY600M-PRO");
}

#[test]
fn test_with_chip_info() {
    let chip_info = ChipFormat {
        image_width: 6224,
        image_height: 4168,
        bits_per_pixel: 16,
    };
    let config = SimulatedCameraConfig::default().with_chip_info(chip_info);

    assert_eq!(config.chip_info.image_width, 6224);
    assert_eq!(config.chip_info.image_height, 4168);
    assert_eq!(config.effective_area.width, 6224);
    assert_eq!(config.effective_area.height, 4168);
    assert_eq!(config.overscan_area.width, 6224);
    assert_eq!(config.overscan_area.height, 4168);
}

#[test]
fn test_with_firmware_version() {
    let config =
        SimulatedCameraConfig::default().with_firmware_version("Firmware version: 2025_3_15");
    assert_eq!(config.firmware_version, "Firmware version: 2025_3_15");
}

#[test]
fn test_with_control() {
    let config = SimulatedCameraConfig::default().with_control(Control::Brightness);
    assert!(config.supported_controls.contains_key(&Control::Brightness));
}

#[test]
fn test_with_filter_wheel_zero_slots() {
    let config = SimulatedCameraConfig::default().with_filter_wheel(0);
    assert_eq!(config.filter_wheel_slots, 0);
    assert!(!config.supported_controls.contains_key(&Control::CfwPort));
}

#[test]
fn test_with_readout_mode() {
    let config = SimulatedCameraConfig::default()
        .with_readout_mode("High Speed", 3072, 2048)
        .with_readout_mode("Low Noise", 1536, 1024);

    assert_eq!(config.readout_modes.len(), 3);
    assert_eq!(config.readout_modes[1].0, "High Speed");
    assert_eq!(config.readout_modes[1].1, (3072, 2048));
    assert_eq!(config.readout_modes[2].0, "Low Noise");
    assert_eq!(config.readout_modes[2].1, (1536, 1024));
}

#[test]
fn control_set_inserts_once() {
    let mut set = ControlSet::new();
    assert!(!set.contains_key(&Control::Gain));
    set.insert(Control::Gain);
    set.insert(Control::Gain);
    assert!(set.contains_key(&Control::Gain));
    assert!(!set.contains_key(&Control::Offset));
}

#[test]
fn default_config_controls() {
    let config = SimulatedCameraConfig::default();
    for control in [
        Control::Gain,
        Control::Offset,
        Control::Exposure,
        Control::Speed,
        Control::UsbTraffic,
        Control::TransferBit,
        Control::CamBin1x1mode,
        Control::CamBin2x2mode,
        Control::CamSingleFrameMode,
        Control::CamLiveVideoMode,
        Control::Cam8bits,
        Control::Cam16bits,
    ] {
        assert!(config.supported_controls.contains_key(&control));
    }
    assert!(!config.supported_controls.contains_key(&Control::Cooler));
    assert_eq!(config.readout_modes.len(), 1);
    assert_eq!(config.readout_modes[0].0, "Standard");
    assert_eq!(config.camera_type, 4010);
    assert_eq!(config.firmware_version, "Firmware version: 2024_1_1");
}

#[test]
fn config_test_default_config() {
    let config = SimulatedCameraConfig::default();
    assert_eq!(config.id, "SIM-001");
    assert_eq!(config.filter_wheel_slots, 0);
    assert!(!config.has_cooler);
    assert!(config.bayer_mode.is_none());
}

#[test]
fn config_test_with_filter_wheel() {
    let config = SimulatedCameraConfig::default().with_filter_wheel(5);
    assert_eq!(config.filter_wheel_slots, 5);
    assert!(config.supported_controls.contains_key(&Control::CfwPort));
    assert!(config.supported_controls.contains_key(&Control::CfwSlotsNum));
}

#[test]
fn config_test_with_cooler() {
    let config = SimulatedCameraConfig::default().with_cooler();
    assert!(config.has_cooler);
    assert!(config.supported_controls.contains_key(&Control::Cooler));
    assert!(config.supported_controls.contains_key(&Control::CurTemp));
}

#[test]
fn config_test_with_color() {
    let config = SimulatedCameraConfig::default().with_color(BayerMode::RGGB);
    assert_eq!(config.bayer_mode, Some(BayerMode::RGGB));
    assert!(config.supported_controls.contains_key(&Control::CamColor));
}

#[test]
fn config_test_builder_chaining() {
    let config = SimulatedCameraConfig::default()
        .with_id("TEST-001")
        .with_model("Test Camera")
        .with_filter_wheel(7)
        .with_cooler()
        .with_color(BayerMode::GBRG);

    assert_eq!(config.id, "TEST-001");
    assert_eq!(config.model, "Test Camera");
    assert_eq!(config.filter_wheel_slots, 7);
    assert!(config.has_cooler);
    assert_eq!(config.bayer_mode, Some(BayerMode::GBRG));
}

#[test]
fn test_default_simulated_camera() {
    let config = default_simulated_camera();
    assert_eq!(config.id, "SIM-QHY178M");
    assert_eq!(config.model, "QHY178M-Simulated");
    assert_eq!(config.chip_info.image_width, 3072);
    assert_eq!(config.chip_info.image_height, 2048);
    assert_eq!(config.chip_info.bits_per_pixel, 16);
    assert!(config.has_cooler);
    assert_eq!(config.filter_wheel_slots, 7);
    assert_eq!(config.readout_modes.len(), 3);
    assert_eq!(config.readout_modes[2].0, "Low Noise");
    assert_eq!(config.readout_modes[2].1, (1536, 1024));
    for control in [Control::Gain, Control::Offset, Control::Exposure, Control::Cooler, Control::CfwPort] {
        assert!(config.supported_controls.contains_key(&control));
    }
    assert!(!config.supported_controls.contains_key(&Control::CamColor));
}

#[test]
fn test_filter_wheel_config() {
    let none = SimulatedCameraConfig::default().with_id("NO-FW").filter_wheel_config();
    assert!(none.is_none());

    let camera = SimulatedCameraConfig::default()
        .with_id("CAM-WITH-FW")
        .with_model("Custom")
        .with_cooler()
        .with_filter_wheel(7);
    let wheel = camera.filter_wheel_config().unwrap();
    assert_eq!(wheel.id, "CAM-WITH-FW");
    assert_eq!(wheel.model, "QHY-SIMULATED");
    assert_eq!(wheel.filter_wheel_slots, 7);
    assert!(!wheel.has_cooler);
    assert!(wheel.supported_controls.contains_key(&Control::CfwPort));
    assert!(!wheel.supported_controls.contains_key(&Control::Cooler));
}

#[test]
fn test_control_set_clone_keeps_controls() {
    let mut set = ControlSet::new();
    set.insert(Control::Gain);
    set.insert(Control::CfwPort);
    set.insert(Control::Gain);
    let copy = set.clone();
    assert!(copy.contains_key(&Control::Gain));
    assert!(copy.contains_key(&Control::CfwPort));
    assert!(!copy.contains_key(&Control::Offset));
}
