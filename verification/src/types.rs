//! Plain data types exchanged with cameras.

use vstd::prelude::*;

verus! {

/// Stream mode used in `set_stream_mode`
#[derive(Debug, Clone, Copy, PartialEq, Eq, Structural)]
pub enum StreamMode {
    /// Long exposure mode
    SingleFrameMode,
    /// Live video mode
    LiveMode,
}

impl StreamMode {
    /// The number the SDK uses for this stream mode.
    pub open spec fn spec_code(self) -> u8 {
        match self {
            StreamMode::SingleFrameMode => 0,
            StreamMode::LiveMode => 1,
        }
    }

    /// Returns the number the SDK uses for this stream mode.
    pub fn code(self) -> (c: u8)
        ensures
            c == self.spec_code(),
    {
        match self {
            StreamMode::SingleFrameMode => 0,
            StreamMode::LiveMode => 1,
        }
    }
}

/// Bayer pattern of a color sensor; returned by `is_control_available`
/// when used with `Control::CamColor`
#[derive(Debug, Clone, Copy, PartialEq, Eq, Structural)]
pub enum BayerMode {
    /// green-blue / red-green
    GBRG,
    /// green-red / blue-green
    GRBG,
    /// blue-green / green-red
    BGGR,
    /// red-green / green-blue
    RGGB,
}

impl BayerMode {
    /// The number the SDK uses for this Bayer pattern.
    pub open spec fn spec_code(self) -> u32 {
        match self {
            BayerMode::GBRG => 1,
            BayerMode::GRBG => 2,
            BayerMode::BGGR => 3,
            BayerMode::RGGB => 4,
        }
    }

    /// Returns the number the SDK uses for this Bayer pattern.
    pub fn code(self) -> (c: u32)
        ensures
            c == self.spec_code(),
    {
        match self {
            BayerMode::GBRG => 1,
            BayerMode::GRBG => 2,
            BayerMode::BGGR => 3,
            BayerMode::RGGB => 4,
        }
    }

}

/// The Bayer pattern the SDK number `value` stands for; numbers outside
/// `1..=4` are refused.
pub open spec fn bayer_mode_of_code(value: u32) -> Result<BayerMode, ()> {
    if value == 1 {
        Ok(BayerMode::GBRG)
    } else if value == 2 {
        Ok(BayerMode::GRBG)
    } else if value == 3 {
        Ok(BayerMode::BGGR)
    } else if value == 4 {
        Ok(BayerMode::RGGB)
    } else {
        Err(())
    }
}

impl TryFrom<u32> for BayerMode {
    type Error = ();

    /// Converts the number the SDK reports into a Bayer pattern; numbers
    /// outside `1..=4` are refused.
    fn try_from(value: u32) -> (r: Result<BayerMode, ()>)
        ensures
            r == bayer_mode_of_code(value),
            r is Ok <==> 1 <= value <= 4,
            r matches Ok(m) ==> m.spec_code() == value,
    {
        if value == 1 {
            Ok(BayerMode::GBRG)
        } else if value == 2 {
            Ok(BayerMode::GRBG)
        } else if value == 3 {
            Ok(BayerMode::BGGR)
        } else if value == 4 {
            Ok(BayerMode::RGGB)
        } else {
            Err(())
        }
    }
}

impl vstd::std_specs::convert::TryFromSpecImpl<u32> for BayerMode {
    open spec fn obeys_try_from_spec() -> bool {
        true
    }

    open spec fn try_from_spec(value: u32) -> Result<BayerMode, ()> {
        bayer_mode_of_code(value)
    }
}

/// Converting a Bayer pattern to its number and back gives the pattern again.
pub proof fn lemma_bayer_code_roundtrip(m: BayerMode)
    ensures
        1 <= m.spec_code() <= 4,
        bayer_mode_of_code(m.spec_code()) == Ok::<BayerMode, ()>(m),
        forall|other: BayerMode| #[trigger] other.spec_code() == m.spec_code() ==> other == m,
{
}

/// A rectangle on the sensor; used in `get_overscan_area`, `get_effective_area`
/// and `set_roi`
#[derive(Debug, Clone, Copy, PartialEq, Eq, Structural)]
pub struct CCDChipArea {
    /// the x coordinate of the top left corner of the area
    pub start_x: u32,
    /// the y coordinate of the top left corner of the area
    pub start_y: u32,
    /// the width of the area in pixels
    pub width: u32,
    /// the height of the area in pixels
    pub height: u32,
}

/// The image data coming from the camera in `get_live_frame` and `get_single_frame`
#[derive(Debug, Clone)]
pub struct ImageData {
    /// the image data
    pub data: Vec<u8>,
    /// the width of the image in pixels
    pub width: u32,
    /// the height of the image in pixels
    pub height: u32,
    /// the number of bits per pixel
    pub bits_per_pixel: u32,
    /// the number of channels, 1 or 4 most of the time
    pub channels: u32,
}

/// A readout mode number and its description coming from `get_readout_mode_name`
#[derive(Debug, Clone)]
pub struct ReadoutMode {
    /// the number of the mode, starting with 0
    pub id: u32,
    /// the name of the mode, e.g. `"STANDARD MODE"`
    pub name: String,
}

/// The version of the SDK, returned from `Sdk::version`
#[derive(Debug, Clone, Copy, PartialEq, Eq, Structural)]
pub struct SDKVersion {
    /// the year of the SDK version
    pub year: u32,
    /// the month of the SDK version
    pub month: u32,
    /// the day of the SDK version
    pub day: u32,
    /// the subday of the SDK version
    pub subday: u32,
}

/// The pixel format of a sensor: its resolution and its maximum transfer depth.
/// These are the integer parts of the camera's chip information.
#[derive(Debug, Clone, Copy, PartialEq, Eq, Structural)]
pub struct ChipFormat {
    /// number of horizontal pixels
    pub image_width: u32,
    /// number of vertical pixels
    pub image_height: u32,
    /// maximum bit depth for transfer
    pub bits_per_pixel: u32,
}

/// The shape of a frame a camera delivers: everything but the pixel bytes.
#[derive(Debug, Clone, Copy, PartialEq, Eq, Structural)]
pub struct FrameFormat {
    /// the width of the image in pixels
    pub width: u32,
    /// the height of the image in pixels
    pub height: u32,
    /// the number of bits per pixel
    pub bits_per_pixel: u32,
    /// the number of channels
    pub channels: u32,
}

} // verus!
