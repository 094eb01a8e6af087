//! The controls (features and parameters) a QHYCCD camera can report and set.

use vstd::prelude::*;

verus! {

/// Controls used in `is_control_available`, `set_parameter` and `get_parameter`.
/// The documentation of each control is taken from the QHYCCD SDK.
#[derive(Debug, PartialEq, Eq, Hash, Clone, Copy, Structural)]
pub enum Control {
    /// Check if support brightness
    Brightness,
    /// Check if support contrast
    Contrast,
    /// Check if support red balance
    Wbr,
    /// Check if support blue balance
    Wbb,
    /// Check if support green balance
    Wbg,
    /// Check if support gamma
    Gamma,
    /// Check if support gain
    Gain,
    /// Check if support offset
    Offset,
    /// Used to set exposure time in microseconds
    Exposure,
    /// Check if support speed
    Speed,
    /// Check if support bits setting
    TransferBit,
    /// Check if support get channels number(Discontinued)
    Channels,
    /// Check if support traffic
    UsbTraffic,
    /// Check if support row denoise
    RowDeNoise,
    /// Check if support get current temperature
    CurTemp,
    /// Check if support get current PWM
    CurPWM,
    /// Check if support manual cool mode
    ManualPWM,
    /// Check if support CFW - Color Filter Wheel
    CfwPort,
    /// Check if support auto cool mode
    Cooler,
    /// Check if support ST4 port
    St4Port,
    /// Check if support get bayer matrix - clashes with `CamIsColor`, but use this one here
    CamColor,
    /// Check if support 1X1 bin mode
    CamBin1x1mode,
    /// Check if support 2X2 bin mode
    CamBin2x2mode,
    /// Check if support 3X3 bin mode
    CamBin3x3mode,
    /// Check if support 4X4 bin mode
    CamBin4x4mode,
    /// Check if support machine shutter
    CamMechanicalShutter,
    /// Check if support trigger mode
    CamTrigerInterface,
    /// Check if support temperature over protect,this
    /// function will limit cooler max PWM be 70%(Disabled)
    CamTecoverprotectInterface,
    /// Check whether the camera supports the
    /// SINGNALCLAMP function, which is a unique feature
    /// of CCD cameras for dark bands behind bright stars
    CamSignalClampInterface,
    /// Check whether the camera supports fine tuning,
    /// which is used for CCD cameras to optimize the noise
    /// characteristics of the camera by fine-tuning the CCD
    /// drive and sampling timing
    CamFinetoneInterface,
    /// Check whether the camera supports shutter motor
    /// heating
    CamShutterMotorHeatingInterface,
    /// Check whether the camera supports FPN calibration,
    /// which reduces FPN noise such as vertical stripes
    CamCalibrateFpnInterface,
    /// Check whether the camera supports an on-chip
    /// temperature sensor
    CamChipTemperatureSensorInterface,
    /// Check whether the camera supports the USB
    /// minimum speed readout function (this function
    /// duplicates the CONTROL_SPEED function and is no
    /// longer in use)
    CamUsbReadoutSlowestInterface,
    /// Check whether the camera supports 8-bit image data
    /// output
    Cam8bits,
    /// Check whether the camera supports 16-bit image
    /// data output
    Cam16bits,
    /// Check whether the camera supports GPS
    CamGps,
    /// Check whether the camera supports the function of
    /// overscanning area calibration
    CamIgnoreOverscanInterface,
    // Check whether the camera supports automatic white
    // balance
    //Qhyccd3aAutoWhiteBalance = 38,
    /// Check whether the camera supports auto exposure
    Qhyccd3aAutoexposure,
    /// Check whether the camera supports autofocus
    Qhyccd3aAutofocus,
    /// Check whether the camera supports glow
    /// suppression
    Ampv,
    /// Check whether the camera supports WDM broadcast
    Vcam,
    /// Check whether preview mode is supported (not
    /// enabled)
    CamViewMode,
    /// Check whether the camera can obtain the number of
    /// filter wheel holes
    CfwSlotsNum,
    /// Check whether the camera is exposed (not enabled)
    IsExposingDone,
    /// Check whether the camera can be stretched Black
    /// gray scale
    ScreenStretchB,
    /// Check whether the camera can White grayscale
    /// stretching
    ScreenStretchW,
    /// Check whether the camera supports DDR
    DDR,
    /// Check whether the camera supports the high-low
    /// gain switching function
    CamLightPerformanceMode,
    ///C heck if the camera is a 5II series camera that
    /// supports guide mode
    CamQhy5IIGuideMode,
    /// Check whether the camera can get the current
    /// amount of DDR buffer data
    DDRBufferCapacity,
    /// Check whether the camera can get the buffer read
    /// threshold
    DDRBufferReadThreshold,
    /// Check whether the camera can obtain the default
    /// gain recommendation
    DefaultGain,
    /// Check whether the camera can obtain the default
    /// bias recommendation
    DefaultOffset,
    /// Check whether the camera can get the actual bits of
    /// output data
    OutputDataActualBits,
    /// Check whether the camera supports getting output
    /// data alignment formats
    OutputDataAlignment,
    /// Check whether the camera supports single frame
    /// mode
    CamSingleFrameMode,
    /// Check whether the camera supports live frame mode
    CamLiveVideoMode,
    /// Check if the camera is color
    CamIsColor,
    /// Check whether the camera supports hardware frame
    /// counting
    HasHardwareFrameCounter,
    /// Get the maximum value of CONTROL_ID (deprecated)
    MaxIdError,
    /// Check whether the camera supports a humidity
    /// sensor
    CamHumidity,
    /// Check whether the camera supports pressure sensors
    CamPressure,
    /// Check whether the camera supports vacuum pump
    VacuumPump,
    /// Check that the camera supports internal circulation
    /// pumps
    SensorChamberCyclePump,
    /// Check whether the camera supports 32-bit image
    /// data output
    Cam32bits,
    /// Check whether the camera supports ULVO status
    /// detection
    CamSensorUlvoStatus,
    /// Check whether the camera supports phase
    /// adjustment, which handles image streaks due to
    /// phase
    CamSensorPhaseReTrain,
    /// Check whether the camera supports Flash read and
    /// write Config
    CamInitConfigFromFlash,
    /// Check whether the camera supports multiple trigger
    /// mode Settings
    CamTriggerMode,
    /// Check whether the camera supports trigger output
    CamTriggerOut,
    /// Check whether the camera supports Burst mode
    CamBurstMode,
    /// Check whether the camera supports the signal lamp
    /// function (currently only for customized models
    CamSpeakerLedAlarm,
    /// Check whether camera FPGA supports watchdog
    /// processing function (currently only for customized
    /// models)
    CamWatchDogFpga,
    /// Check whether the camera supports 6X6 BIN
    CamBin6x6mode,
    /// Check whether the camera supports 8X8 BIN
    CamBin8x8mode,
    /// Check whether the camera sensor supports global
    /// LED calibration lights
    CamGlobalSensorGpsLED,
    /// Check whether the camera supports image
    /// processing
    ImgProc,
    /// not documented
    RemoveRbi,
    /// not documented
    GlobalReset,
    /// not documented
    FrameDetect,
    /// not documented
    CamGainDbConversion,
    /// not documented
    CamCurveSystemGain,
    /// not documented
    CamCurveFullWell,
    /// not documented
    CamCurveReadoutNoise,
    /// not documented
    MaxId,
    /// not documented - see missing value 38
    Autowhitebalance,
    /// not documented
    Autoexposure,
    /// not documented
    AutoexpMessureValue,
    /// not documented
    AutoexpMessureMethod,
    /// not documented
    ImageStabilization,
    /// not documented
    GaindB,
}

impl Control {
    /// The identifier the SDK uses for this control.
    pub open spec fn spec_code(self) -> u32 {
        match self {
            Control::Brightness => 0,
            Control::Contrast => 1,
            Control::Wbr => 2,
            Control::Wbb => 3,
            Control::Wbg => 4,
            Control::Gamma => 5,
            Control::Gain => 6,
            Control::Offset => 7,
            Control::Exposure => 8,
            Control::Speed => 9,
            Control::TransferBit => 10,
            Control::Channels => 11,
            Control::UsbTraffic => 12,
            Control::RowDeNoise => 13,
            Control::CurTemp => 14,
            Control::CurPWM => 15,
            Control::ManualPWM => 16,
            Control::CfwPort => 17,
            Control::Cooler => 18,
            Control::St4Port => 19,
            Control::CamColor => 20,
            Control::CamBin1x1mode => 21,
            Control::CamBin2x2mode => 22,
            Control::CamBin3x3mode => 23,
            Control::CamBin4x4mode => 24,
            Control::CamMechanicalShutter => 25,
            Control::CamTrigerInterface => 26,
            Control::CamTecoverprotectInterface => 27,
            Control::CamSignalClampInterface => 28,
            Control::CamFinetoneInterface => 29,
            Control::CamShutterMotorHeatingInterface => 30,
            Control::CamCalibrateFpnInterface => 31,
            Control::CamChipTemperatureSensorInterface => 32,
            Control::CamUsbReadoutSlowestInterface => 33,
            Control::Cam8bits => 34,
            Control::Cam16bits => 35,
            Control::CamGps => 36,
            Control::CamIgnoreOverscanInterface => 37,
            Control::Qhyccd3aAutoexposure => 39,
            Control::Qhyccd3aAutofocus => 40,
            Control::Ampv => 41,
            Control::Vcam => 42,
            Control::CamViewMode => 43,
            Control::CfwSlotsNum => 44,
            Control::IsExposingDone => 45,
            Control::ScreenStretchB => 46,
            Control::ScreenStretchW => 47,
            Control::DDR => 48,
            Control::CamLightPerformanceMode => 49,
            Control::CamQhy5IIGuideMode => 50,
            Control::DDRBufferCapacity => 51,
            Control::DDRBufferReadThreshold => 52,
            Control::DefaultGain => 53,
            Control::DefaultOffset => 54,
            Control::OutputDataActualBits => 55,
            Control::OutputDataAlignment => 56,
            Control::CamSingleFrameMode => 57,
            Control::CamLiveVideoMode => 58,
            Control::CamIsColor => 59,
            Control::HasHardwareFrameCounter => 60,
            Control::MaxIdError => 61,
            Control::CamHumidity => 62,
            Control::CamPressure => 63,
            Control::VacuumPump => 64,
            Control::SensorChamberCyclePump => 65,
            Control::Cam32bits => 66,
            Control::CamSensorUlvoStatus => 67,
            Control::CamSensorPhaseReTrain => 68,
            Control::CamInitConfigFromFlash => 69,
            Control::CamTriggerMode => 70,
            Control::CamTriggerOut => 71,
            Control::CamBurstMode => 72,
            Control::CamSpeakerLedAlarm => 73,
            Control::CamWatchDogFpga => 74,
            Control::CamBin6x6mode => 75,
            Control::CamBin8x8mode => 76,
            Control::CamGlobalSensorGpsLED => 77,
            Control::ImgProc => 78,
            Control::RemoveRbi => 79,
            Control::GlobalReset => 80,
            Control::FrameDetect => 81,
            Control::CamGainDbConversion => 82,
            Control::CamCurveSystemGain => 83,
            Control::CamCurveFullWell => 84,
            Control::CamCurveReadoutNoise => 85,
            Control::MaxId => 86,
            Control::Autowhitebalance => 1024,
            Control::Autoexposure => 1025,
            Control::AutoexpMessureValue => 1026,
            Control::AutoexpMessureMethod => 1027,
            Control::ImageStabilization => 1028,
            Control::GaindB => 1029,
        }
    }

    /// Returns the identifier the SDK uses for this control.
    pub fn code(self) -> (c: u32)
        ensures
            c == self.spec_code(),
    {
        match self {
            Control::Brightness => 0,
            Control::Contrast => 1,
            Control::Wbr => 2,
            Control::Wbb => 3,
            Control::Wbg => 4,
            Control::Gamma => 5,
            Control::Gain => 6,
            Control::Offset => 7,
            Control::Exposure => 8,
            Control::Speed => 9,
            Control::TransferBit => 10,
            Control::Channels => 11,
            Control::UsbTraffic => 12,
            Control::RowDeNoise => 13,
            Control::CurTemp => 14,
            Control::CurPWM => 15,
            Control::ManualPWM => 16,
            Control::CfwPort => 17,
            Control::Cooler => 18,
            Control::St4Port => 19,
            Control::CamColor => 20,
            Control::CamBin1x1mode => 21,
            Control::CamBin2x2mode => 22,
            Control::CamBin3x3mode => 23,
            Control::CamBin4x4mode => 24,
            Control::CamMechanicalShutter => 25,
            Control::CamTrigerInterface => 26,
            Control::CamTecoverprotectInterface => 27,
            Control::CamSignalClampInterface => 28,
            Control::CamFinetoneInterface => 29,
            Control::CamShutterMotorHeatingInterface => 30,
            Control::CamCalibrateFpnInterface => 31,
            Control::CamChipTemperatureSensorInterface => 32,
            Control::CamUsbReadoutSlowestInterface => 33,
            Control::Cam8bits => 34,
            Control::Cam16bits => 35,
            Control::CamGps => 36,
            Control::CamIgnoreOverscanInterface => 37,
            Control::Qhyccd3aAutoexposure => 39,
            Control::Qhyccd3aAutofocus => 40,
            Control::Ampv => 41,
            Control::Vcam => 42,
            Control::CamViewMode => 43,
            Control::CfwSlotsNum => 44,
            Control::IsExposingDone => 45,
            Control::ScreenStretchB => 46,
            Control::ScreenStretchW => 47,
            Control::DDR => 48,
            Control::CamLightPerformanceMode => 49,
            Control::CamQhy5IIGuideMode => 50,
            Control::DDRBufferCapacity => 51,
            Control::DDRBufferReadThreshold => 52,
            Control::DefaultGain => 53,
            Control::DefaultOffset => 54,
            Control::OutputDataActualBits => 55,
            Control::OutputDataAlignment => 56,
            Control::CamSingleFrameMode => 57,
            Control::CamLiveVideoMode => 58,
            Control::CamIsColor => 59,
            Control::HasHardwareFrameCounter => 60,
            Control::MaxIdError => 61,
            Control::CamHumidity => 62,
            Control::CamPressure => 63,
            Control::VacuumPump => 64,
            Control::SensorChamberCyclePump => 65,
            Control::Cam32bits => 66,
            Control::CamSensorUlvoStatus => 67,
            Control::CamSensorPhaseReTrain => 68,
            Control::CamInitConfigFromFlash => 69,
            Control::CamTriggerMode => 70,
            Control::CamTriggerOut => 71,
            Control::CamBurstMode => 72,
            Control::CamSpeakerLedAlarm => 73,
            Control::CamWatchDogFpga => 74,
            Control::CamBin6x6mode => 75,
            Control::CamBin8x8mode => 76,
            Control::CamGlobalSensorGpsLED => 77,
            Control::ImgProc => 78,
            Control::RemoveRbi => 79,
            Control::GlobalReset => 80,
            Control::FrameDetect => 81,
            Control::CamGainDbConversion => 82,
            Control::CamCurveSystemGain => 83,
            Control::CamCurveFullWell => 84,
            Control::CamCurveReadoutNoise => 85,
            Control::MaxId => 86,
            Control::Autowhitebalance => 1024,
            Control::Autoexposure => 1025,
            Control::AutoexpMessureValue => 1026,
            Control::AutoexpMessureMethod => 1027,
            Control::ImageStabilization => 1028,
            Control::GaindB => 1029,
        }
    }
}

/// The control that the SDK identifier `code` stands for, if any.
pub open spec fn control_of_code(code: u32) -> Option<Control> {
    if code == 0 {
        Some(Control::Brightness)
    } else if code == 1 {
        Some(Control::Contrast)
    } else if code == 2 {
        Some(Control::Wbr)
    } else if code == 3 {
        Some(Control::Wbb)
    } else if code == 4 {
        Some(Control::Wbg)
    } else if code == 5 {
        Some(Control::Gamma)
    } else if code == 6 {
        Some(Control::Gain)
    } else if code == 7 {
        Some(Control::Offset)
    } else if code == 8 {
        Some(Control::Exposure)
    } else if code == 9 {
        Some(Control::Speed)
    } else if code == 10 {
        Some(Control::TransferBit)
    } else if code == 11 {
        Some(Control::Channels)
    } else if code == 12 {
        Some(Control::UsbTraffic)
    } else if code == 13 {
        Some(Control::RowDeNoise)
    } else if code == 14 {
        Some(Control::CurTemp)
    } else if code == 15 {
        Some(Control::CurPWM)
    } else if code == 16 {
        Some(Control::ManualPWM)
    } else if code == 17 {
        Some(Control::CfwPort)
    } else if code == 18 {
        Some(Control::Cooler)
    } else if code == 19 {
        Some(Control::St4Port)
    } else if code == 20 {
        Some(Control::CamColor)
    } else if code == 21 {
        Some(Control::CamBin1x1mode)
    } else if code == 22 {
        Some(Control::CamBin2x2mode)
    } else if code == 23 {
        Some(Control::CamBin3x3mode)
    } else if code == 24 {
        Some(Control::CamBin4x4mode)
    } else if code == 25 {
        Some(Control::CamMechanicalShutter)
    } else if code == 26 {
        Some(Control::CamTrigerInterface)
    } else if code == 27 {
        Some(Control::CamTecoverprotectInterface)
    } else if code == 28 {
        Some(Control::CamSignalClampInterface)
    } else if code == 29 {
        Some(Control::CamFinetoneInterface)
    } else if code == 30 {
        Some(Control::CamShutterMotorHeatingInterface)
    } else if code == 31 {
        Some(Control::CamCalibrateFpnInterface)
    } else if code == 32 {
        Some(Control::CamChipTemperatureSensorInterface)
    } else if code == 33 {
        Some(Control::CamUsbReadoutSlowestInterface)
    } else if code == 34 {
        Some(Control::Cam8bits)
    } else if code == 35 {
        Some(Control::Cam16bits)
    } else if code == 36 {
        Some(Control::CamGps)
    } else if code == 37 {
        Some(Control::CamIgnoreOverscanInterface)
    } else if code == 39 {
        Some(Control::Qhyccd3aAutoexposure)
    } else if code == 40 {
        Some(Control::Qhyccd3aAutofocus)
    } else if code == 41 {
        Some(Control::Ampv)
    } else if code == 42 {
        Some(Control::Vcam)
    } else if code == 43 {
        Some(Control::CamViewMode)
    } else if code == 44 {
        Some(Control::CfwSlotsNum)
    } else if code == 45 {
        Some(Control::IsExposingDone)
    } else if code == 46 {
        Some(Control::ScreenStretchB)
    } else if code == 47 {
        Some(Control::ScreenStretchW)
    } else if code == 48 {
        Some(Control::DDR)
    } else if code == 49 {
        Some(Control::CamLightPerformanceMode)
    } else if code == 50 {
        Some(Control::CamQhy5IIGuideMode)
    } else if code == 51 {
        Some(Control::DDRBufferCapacity)
    } else if code == 52 {
        Some(Control::DDRBufferReadThreshold)
    } else if code == 53 {
        Some(Control::DefaultGain)
    } else if code == 54 {
        Some(Control::DefaultOffset)
    } else if code == 55 {
        Some(Control::OutputDataActualBits)
    } else if code == 56 {
        Some(Control::OutputDataAlignment)
    } else if code == 57 {
        Some(Control::CamSingleFrameMode)
    } else if code == 58 {
        Some(Control::CamLiveVideoMode)
    } else if code == 59 {
        Some(Control::CamIsColor)
    } else if code == 60 {
        Some(Control::HasHardwareFrameCounter)
    } else if code == 61 {
        Some(Control::MaxIdError)
    } else if code == 62 {
        Some(Control::CamHumidity)
    } else if code == 63 {
        Some(Control::CamPressure)
    } else if code == 64 {
        Some(Control::VacuumPump)
    } else if code == 65 {
        Some(Control::SensorChamberCyclePump)
    } else if code == 66 {
        Some(Control::Cam32bits)
    } else if code == 67 {
        Some(Control::CamSensorUlvoStatus)
    } else if code == 68 {
        Some(Control::CamSensorPhaseReTrain)
    } else if code == 69 {
        Some(Control::CamInitConfigFromFlash)
    } else if code == 70 {
        Some(Control::CamTriggerMode)
    } else if code == 71 {
        Some(Control::CamTriggerOut)
    } else if code == 72 {
        Some(Control::CamBurstMode)
    } else if code == 73 {
        Some(Control::CamSpeakerLedAlarm)
    } else if code == 74 {
        Some(Control::CamWatchDogFpga)
    } else if code == 75 {
        Some(Control::CamBin6x6mode)
    } else if code == 76 {
        Some(Control::CamBin8x8mode)
    } else if code == 77 {
        Some(Control::CamGlobalSensorGpsLED)
    } else if code == 78 {
        Some(Control::ImgProc)
    } else if code == 79 {
        Some(Control::RemoveRbi)
    } else if code == 80 {
        Some(Control::GlobalReset)
    } else if code == 81 {
        Some(Control::FrameDetect)
    } else if code == 82 {
        Some(Control::CamGainDbConversion)
    } else if code == 83 {
        Some(Control::CamCurveSystemGain)
    } else if code == 84 {
        Some(Control::CamCurveFullWell)
    } else if code == 85 {
        Some(Control::CamCurveReadoutNoise)
    } else if code == 86 {
        Some(Control::MaxId)
    } else if code == 1024 {
        Some(Control::Autowhitebalance)
    } else if code == 1025 {
        Some(Control::Autoexposure)
    } else if code == 1026 {
        Some(Control::AutoexpMessureValue)
    } else if code == 1027 {
        Some(Control::AutoexpMessureMethod)
    } else if code == 1028 {
        Some(Control::ImageStabilization)
    } else if code == 1029 {
        Some(Control::GaindB)
    } else {
        None
    }
}

/// Every control is recovered from its SDK identifier.
pub proof fn lemma_control_code_roundtrip(c: Control)
    ensures
        control_of_code(c.spec_code()) == Some(c),
{
}

/// Distinct controls have distinct SDK identifiers, so a request sent to the SDK
/// names exactly one control.
pub proof fn lemma_control_code_injective(a: Control, b: Control)
    ensures
        a.spec_code() == b.spec_code() ==> a == b,
{
    lemma_control_code_roundtrip(a);
    lemma_control_code_roundtrip(b);
}

} // verus!
