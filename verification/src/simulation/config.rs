//! Configuration of simulated cameras.

use vstd::prelude::*;

use std::collections::HashSet;

use crate::control::{lemma_control_code_injective, Control};
use crate::types::{BayerMode, CCDChipArea, ChipFormat};

verus! {

/// A set of controls, held by their SDK codes.
#[derive(Debug)]
pub struct ControlSet {
    codes: HashSet<u32>,
}

impl View for ControlSet {
    type V = Set<Control>;

    closed spec fn view(&self) -> Set<Control> {
        Set::new(|c: Control| self.codes@.contains(c.spec_code()))
    }
}

impl ControlSet {
    /// Creates an empty set.
    pub fn new() -> (s: ControlSet)
        ensures
            s@ == Set::<Control>::empty(),
    {
        let s = ControlSet { codes: HashSet::new() };
        assert(s@ =~= Set::<Control>::empty());
        s
    }

    /// Returns whether `control` is in the set.
    pub fn contains_key(&self, control: &Control) -> (b: bool)
        ensures
            b == self@.contains(*control),
    {
        broadcast use vstd::std_specs::hash::group_hash_axioms;

        let code = control.code();
        self.codes.contains(&code)
    }

    /// Adds `control` to the set.
    pub fn insert(&mut self, control: Control)
        ensures
            final(self)@ == old(self)@.insert(control),
    {
        broadcast use vstd::std_specs::hash::group_hash_axioms;

        let code = control.code();
        self.codes.insert(code);
        proof {
            assert forall|c: Control| #[trigger] self@.contains(c) == old(self)@.insert(
                control,
            ).contains(c) by {
                lemma_control_code_injective(c, control);
            }
            assert(self@ =~= old(self)@.insert(control));
        }
    }
}

impl Clone for ControlSet {
    /// A set with the same controls.
    fn clone(&self) -> (r: Self)
        ensures
            r@ == self@,
    {
        broadcast use vstd::std_specs::hash::group_hash_axioms, vstd::seq_lib::group_seq_properties;

        let mut codes: HashSet<u32> = HashSet::new();
        let ghost mut seen: Seq<u32> = Seq::empty();
        let ghost all: Seq<u32> = vstd::std_specs::iter::IteratorSpec::remaining(
            &vstd::std_specs::hash::spec_hash_keys_iter(&self.codes),
        ).unref();
        for code in it: self.codes.iter()
            invariant
                it.seq().unref() == all,
                all.to_set() == self.codes@,
                seen == it.seq().take(it.index()).unref(),
                seen.len() <= all.len(),
                forall|k: u32| #[trigger] codes@.contains(k) <==> seen.contains(k),
        {
            let ghost before_seen = seen;
            proof {
                assert(it.seq().take(it.index() + 1).unref() =~= seen.push(*code));
                seen = seen.push(*code);
            }
            codes.insert(*code);
            proof {
                assert forall|k: u32| #[trigger] codes@.contains(k) <==> seen.contains(k) by {
                    if k == *code {
                        assert(seen[seen.len() - 1] == k);
                    } else if before_seen.contains(k) {
                        let j = choose|j: int| 0 <= j < before_seen.len() && before_seen[j] == k;
                        assert(seen[j] == k);
                    } else if seen.contains(k) {
                        let j = choose|j: int| 0 <= j < seen.len() && seen[j] == k;
                        assert(before_seen[j] == k);
                    }
                }
            }
        }
        proof {
            assert(seen =~= all);
            assert(seen.to_set() == self.codes@);
        }
        let r = ControlSet { codes };
        proof {
            assert forall|k: u32| #[trigger] r.codes@.contains(k) == self.codes@.contains(k) by {
                assert(seen.to_set().contains(k) == seen.contains(k));
            }
            assert(r@ =~= self@);
        }
        r
    }
}

/// The controls of the default simulated camera.
pub open spec fn default_controls() -> Set<Control> {
    set![
        Control::Gain,
        Control::Offset,
        Control::Exposure,
        Control::Speed,
        Control::UsbTraffic,
        Control::TransferBit,
        Control::CamBin1x1mode,
        Control::CamBin2x2mode,
        Control::CamSingleFrameMode,
        Control::CamLiveVideoMode,
        Control::Cam8bits,
        Control::Cam16bits,
    ]
}

/// The resolution of the sensor of the default simulated camera.
pub open spec fn default_area() -> CCDChipArea {
    CCDChipArea { start_x: 0, start_y: 0, width: 3072, height: 2048 }
}

/// Configuration of a simulated camera.
#[derive(Debug, Clone)]
pub struct SimulatedCameraConfig {
    /// Camera identifier (e.g., "SIM-001")
    pub id: String,
    /// Model name (e.g., "QHY178M-SIM")
    pub model: String,
    /// Resolution and transfer depth of the sensor
    pub chip_info: ChipFormat,
    /// Effective imaging area
    pub effective_area: CCDChipArea,
    /// Overscan area (if any)
    pub overscan_area: CCDChipArea,
    /// Supported controls
    pub supported_controls: ControlSet,
    /// Number of filter wheel slots (0 = no filter wheel)
    pub filter_wheel_slots: u32,
    /// Whether the camera has a cooler
    pub has_cooler: bool,
    /// Bayer mode for color cameras (None = mono)
    pub bayer_mode: Option<BayerMode>,
    /// Available readout modes: (name, (width, height))
    pub readout_modes: Vec<(String, (u32, u32))>,
    /// Camera type code
    pub camera_type: u32,
    /// Firmware version string
    pub firmware_version: String,
}

impl Default for SimulatedCameraConfig {
    /// Creates a default configuration similar to a QHY178M: a 3072 x 2048
    /// 16-bit mono sensor with one readout mode, no filter wheel and no cooler.
    fn default() -> (c: Self)
        ensures
            c.id@ == "SIM-001"@,
            c.model@ == "QHY-SIMULATED"@,
            c.chip_info == (ChipFormat { image_width: 3072, image_height: 2048, bits_per_pixel: 16 }),
            c.effective_area == default_area(),
            c.overscan_area == default_area(),
            c.supported_controls@ == default_controls(),
            c.filter_wheel_slots == 0,
            !c.has_cooler,
            c.bayer_mode is None,
            c.readout_modes@.len() == 1,
            c.readout_modes@[0].0@ == "Standard"@,
            c.readout_modes@[0].1 == (3072u32, 2048u32),
            c.camera_type == 4010,
            c.firmware_version@ == "Firmware version: 2024_1_1"@,
    {
        let mut supported_controls = ControlSet::new();
        // Basic controls
        supported_controls.insert(Control::Gain);
        supported_controls.insert(Control::Offset);
        supported_controls.insert(Control::Exposure);
        supported_controls.insert(Control::Speed);
        supported_controls.insert(Control::UsbTraffic);
        supported_controls.insert(Control::TransferBit);
        // Binning modes
        supported_controls.insert(Control::CamBin1x1mode);
        supported_controls.insert(Control::CamBin2x2mode);
        // Frame modes
        supported_controls.insert(Control::CamSingleFrameMode);
        supported_controls.insert(Control::CamLiveVideoMode);
        // Bit modes
        supported_controls.insert(Control::Cam8bits);
        supported_controls.insert(Control::Cam16bits);
        assert(supported_controls@ =~= default_controls());

        let mut readout_modes: Vec<(String, (u32, u32))> = Vec::new();
        readout_modes.push((String::from_str("Standard"), (3072, 2048)));

        let area = CCDChipArea { start_x: 0, start_y: 0, width: 3072, height: 2048 };
        SimulatedCameraConfig {
            id: String::from_str("SIM-001"),
            model: String::from_str("QHY-SIMULATED"),
            chip_info: ChipFormat { image_width: 3072, image_height: 2048, bits_per_pixel: 16 },
            effective_area: area,
            overscan_area: area,
            supported_controls,
            filter_wheel_slots: 0,
            has_cooler: false,
            bayer_mode: None,
            readout_modes,
            camera_type: 4010,
            firmware_version: String::from_str("Firmware version: 2024_1_1"),
        }
    }
}

impl SimulatedCameraConfig {
    /// Sets the camera identifier.
    pub fn with_id(self, id: &str) -> (c: Self)
        ensures
            c.id@ == id@,
            c == (SimulatedCameraConfig { id: c.id, ..self }),
    {
        SimulatedCameraConfig { id: String::from_str(id), ..self }
    }

    /// Sets the camera model name.
    pub fn with_model(self, model: &str) -> (c: Self)
        ensures
            c.model@ == model@,
            c == (SimulatedCameraConfig { model: c.model, ..self }),
    {
        SimulatedCameraConfig { model: String::from_str(model), ..self }
    }

    /// Adds filter wheel support with the given number of slots; with at least
    /// one slot the filter wheel controls become available.
    pub fn with_filter_wheel(self, slots: u32) -> (c: Self)
        ensures
            c.filter_wheel_slots == slots,
            c.supported_controls@ == (if slots > 0 {
                self.supported_controls@.insert(Control::CfwPort).insert(Control::CfwSlotsNum)
            } else {
                self.supported_controls@
            }),
            c == (SimulatedCameraConfig {
                filter_wheel_slots: slots,
                supported_controls: c.supported_controls,
                ..self
            }),
    {
        let mut c = self;
        c.filter_wheel_slots = slots;
        if slots > 0 {
            c.supported_controls.insert(Control::CfwPort);
            c.supported_controls.insert(Control::CfwSlotsNum);
        }
        c
    }

    /// Makes this a color camera with the given Bayer pattern; white balance
    /// controls become available.
    pub fn with_color(self, bayer_mode: BayerMode) -> (c: Self)
        ensures
            c.bayer_mode == Some(bayer_mode),
            c.supported_controls@ == self.supported_controls@.insert(Control::CamColor).insert(
                Control::Wbr,
            ).insert(Control::Wbb).insert(Control::Wbg),
            c == (SimulatedCameraConfig {
                bayer_mode: Some(bayer_mode),
                supported_controls: c.supported_controls,
                ..self
            }),
    {
        let mut c = self;
        c.bayer_mode = Some(bayer_mode);
        c.supported_controls.insert(Control::CamColor);
        c.supported_controls.insert(Control::Wbr);
        c.supported_controls.insert(Control::Wbb);
        c.supported_controls.insert(Control::Wbg);
        c
    }

    /// Adds cooler support and its controls.
    pub fn with_cooler(self) -> (c: Self)
        ensures
            c.has_cooler,
            c.supported_controls@ == self.supported_controls@.insert(Control::Cooler).insert(
                Control::CurTemp,
            ).insert(Control::CurPWM).insert(Control::ManualPWM),
            c == (SimulatedCameraConfig {
                has_cooler: true,
                supported_controls: c.supported_controls,
                ..self
            }),
    {
        let mut c = self;
        c.has_cooler = true;
        c.supported_controls.insert(Control::Cooler);
        c.supported_controls.insert(Control::CurTemp);
        c.supported_controls.insert(Control::CurPWM);
        c.supported_controls.insert(Control::ManualPWM);
        c
    }

    /// Sets the sensor format; the effective and the overscan area become the
    /// whole sensor.
    pub fn with_chip_info(self, chip_info: ChipFormat) -> (c: Self)
        ensures
            c == (SimulatedCameraConfig {
                chip_info,
                effective_area: CCDChipArea {
                    start_x: 0,
                    start_y: 0,
                    width: chip_info.image_width,
                    height: chip_info.image_height,
                },
                overscan_area: CCDChipArea {
                    start_x: 0,
                    start_y: 0,
                    width: chip_info.image_width,
                    height: chip_info.image_height,
                },
                ..self
            }),
    {
        let mut c = self;
        c.effective_area = CCDChipArea {
            start_x: 0,
            start_y: 0,
            width: chip_info.image_width,
            height: chip_info.image_height,
        };
        c.overscan_area = c.effective_area;
        c.chip_info = chip_info;
        c
    }

    /// Adds a readout mode with its name and resolution after the existing ones.
    pub fn with_readout_mode(self, name: &str, width: u32, height: u32) -> (c: Self)
        ensures
            c.readout_modes@.len() == self.readout_modes@.len() + 1,
            forall|i: int|
                0 <= i < self.readout_modes@.len() ==> #[trigger] c.readout_modes@[i]
                    == self.readout_modes@[i],
            c.readout_modes@.last().0@ == name@,
            c.readout_modes@.last().1 == (width, height),
            c == (SimulatedCameraConfig { readout_modes: c.readout_modes, ..self }),
    {
        let mut c = self;
        c.readout_modes.push((String::from_str(name), (width, height)));
        c
    }

    /// Sets the firmware version string.
    pub fn with_firmware_version(self, version: &str) -> (c: Self)
        ensures
            c.firmware_version@ == version@,
            c == (SimulatedCameraConfig { firmware_version: c.firmware_version, ..self }),
    {
        SimulatedCameraConfig { firmware_version: String::from_str(version), ..self }
    }

    /// The configuration of the simulated camera that stands for the filter
    /// wheel plugged into a camera with this configuration: the default
    /// camera under the same id, with the same number of slots. A camera
    /// without filter wheel slots has none.
    pub fn filter_wheel_config(&self) -> (r: Option<SimulatedCameraConfig>)
        ensures
            r is Some <==> self.filter_wheel_slots > 0,
            r matches Some(c) ==> {
                &&& c.id@ == self.id@
                &&& c.model@ == "QHY-SIMULATED"@
                &&& c.chip_info == (ChipFormat {
                    image_width: 3072,
                    image_height: 2048,
                    bits_per_pixel: 16,
                })
                &&& c.effective_area == default_area()
                &&& c.overscan_area == default_area()
                &&& c.supported_controls@ == default_controls().insert(Control::CfwPort).insert(
                    Control::CfwSlotsNum,
                )
                &&& c.filter_wheel_slots == self.filter_wheel_slots
                &&& !c.has_cooler
                &&& c.bayer_mode is None
                &&& c.readout_modes@.len() == 1
                &&& c.readout_modes@[0].0@ == "Standard"@
                &&& c.readout_modes@[0].1 == (3072u32, 2048u32)
                &&& c.camera_type == 4010
                &&& c.firmware_version@ == "Firmware version: 2024_1_1"@
            },
    {
        if self.filter_wheel_slots == 0 {
            return None;
        }
        Some(
            SimulatedCameraConfig::default().with_id(self.id.as_str()).with_filter_wheel(
                self.filter_wheel_slots,
            ),
        )
    }

    /// Adds support for a control.
    pub fn with_control(self, control: Control) -> (c: Self)
        ensures
            c.supported_controls@ == self.supported_controls@.insert(control),
            c == (SimulatedCameraConfig { supported_controls: c.supported_controls, ..self }),
    {
        let mut c = self;
        c.supported_controls.insert(control);
        c
    }
}

/// The camera a simulated SDK provides when it is created: a QHY178M
/// (`SIM-QHY178M`) with a 3072 x 2048 16-bit sensor, a cooler, three readout
/// modes and a 7-position filter wheel.
pub fn default_simulated_camera() -> (c: SimulatedCameraConfig)
    ensures
        c.id@ == "SIM-QHY178M"@,
        c.model@ == "QHY178M-Simulated"@,
        c.chip_info == (ChipFormat { image_width: 3072, image_height: 2048, bits_per_pixel: 16 }),
        c.effective_area == default_area(),
        c.overscan_area == default_area(),
        c.supported_controls@ == default_controls().insert(Control::CfwPort).insert(
            Control::CfwSlotsNum,
        ).insert(Control::Cooler).insert(Control::CurTemp).insert(Control::CurPWM).insert(
            Control::ManualPWM,
        ),
        c.filter_wheel_slots == 7,
        c.has_cooler,
        c.bayer_mode is None,
        c.readout_modes@.len() == 3,
        c.readout_modes@[0].0@ == "Standard"@,
        c.readout_modes@[0].1 == (3072u32, 2048u32),
        c.readout_modes@[1].0@ == "High Speed"@,
        c.readout_modes@[1].1 == (3072u32, 2048u32),
        c.readout_modes@[2].0@ == "Low Noise"@,
        c.readout_modes@[2].1 == (1536u32, 1024u32),
        c.camera_type == 4010,
        c.firmware_version@ == "Firmware version: 2024_1_1"@,
{
    SimulatedCameraConfig::default().with_id("SIM-QHY178M").with_model(
        "QHY178M-Simulated",
    ).with_filter_wheel(7).with_cooler().with_readout_mode("High Speed", 3072, 2048).with_readout_mode(
        "Low Noise",
        1536,
        1024,
    )
}

} // verus!
