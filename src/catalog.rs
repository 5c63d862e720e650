//! The read-only table of supported devices, their modes and canvas sizes,
//! with the codes that requests carry.
use vstd::prelude::*;

verus! {

/// What a mode does with the medium.
#[derive(Clone, Copy, Debug, PartialEq, Eq, Structural, Hash)]
pub enum ModeType {
    Print,
    PrintAndCut,
}

impl ModeType {
    pub open spec fn spec_channel(self) -> u16 {
        match self {
            ModeType::Print => 30784,
            ModeType::PrintAndCut => 30960,
        }
    }

    pub open spec fn spec_job_type(self) -> u16 {
        match self {
            ModeType::Print => 0,
            ModeType::PrintAndCut => 600,
        }
    }

    pub open spec fn spec_link_type(self) -> u16 {
        match self {
            ModeType::Print => 1000,
            ModeType::PrintAndCut => 0,
        }
    }

    pub open spec fn spec_has_cutting(self) -> bool {
        self is PrintAndCut
    }

    /// Name of the mode for display.
    pub fn name(&self) -> (r: &'static str)
        ensures
            self is Print ==> r@ == "Print"@,
            self is PrintAndCut ==> r@ == "Print and Cut"@,
    {
        match self {
            ModeType::Print => "Print",
            ModeType::PrintAndCut => "Print and Cut",
        }
    }

    pub fn channel(&self) -> (r: u16)
        ensures
            r == self.spec_channel(),
    {
        match self {
            ModeType::Print => 30784,
            ModeType::PrintAndCut => 30960,
        }
    }

    pub fn job_type(&self) -> (r: u16)
        ensures
            r == self.spec_job_type(),
    {
        match self {
            ModeType::Print => 0,
            ModeType::PrintAndCut => 600,
        }
    }

    pub fn link_type(&self) -> (r: u16)
        ensures
            r == self.spec_link_type(),
    {
        match self {
            ModeType::Print => 1000,
            ModeType::PrintAndCut => 0,
        }
    }

    pub fn has_cutting(&self) -> (r: bool)
        ensures
            r == self.spec_has_cutting(),
    {
        matches!(self, ModeType::PrintAndCut)
    }
}

/// A canvas a mode can print on. Sizes are in device pixels.
#[derive(Clone, Debug)]
pub struct CanvasSize {
    pub name: String,
    pub media_size: u16,
    pub media_type: u16,
    pub width_px: u32,
    pub height_px: u32,
    pub safe_width_px: u32,
    pub safe_height_px: u32,
}

/// A mode of a device and the canvases it offers.
#[derive(Clone, Debug)]
pub struct Mode {
    pub mode_type: ModeType,
    pub canvas_sizes: Vec<CanvasSize>,
}

/// A supported device.
#[derive(Clone, Debug)]
pub struct Device {
    pub name: String,
    pub model: String,
    pub dpi: u32,
    pub modes: Vec<Mode>,
}

/// The supported devices: one printer with a print mode on a 4x6 canvas and a
/// print-and-cut mode on a 4x7 canvas.
pub fn devices() -> (r: Vec<Device>)
    ensures
        r@.len() == 1,
        r@[0].name@ == "PixCut S1"@,
        r@[0].model@ == "DHP700"@,
        r@[0].dpi == 300,
        r@[0].modes@.len() == 2,
        r@[0].modes@[0].mode_type == ModeType::Print,
        r@[0].modes@[0].canvas_sizes@.len() == 1,
        r@[0].modes@[0].canvas_sizes@[0].name@ == "4x6"@,
        r@[0].modes@[0].canvas_sizes@[0].media_size == 5012,
        r@[0].modes@[0].canvas_sizes@[0].media_type == 2010,
        r@[0].modes@[0].canvas_sizes@[0].width_px == 1200,
        r@[0].modes@[0].canvas_sizes@[0].height_px == 1800,
        r@[0].modes@[0].canvas_sizes@[0].safe_width_px == 1200,
        r@[0].modes@[0].canvas_sizes@[0].safe_height_px == 1800,
        r@[0].modes@[1].mode_type == ModeType::PrintAndCut,
        r@[0].modes@[1].canvas_sizes@.len() == 1,
        r@[0].modes@[1].canvas_sizes@[0].name@ == "4x7"@,
        r@[0].modes@[1].canvas_sizes@[0].media_size == 5013,
        r@[0].modes@[1].canvas_sizes@[0].media_type == 2030,
        r@[0].modes@[1].canvas_sizes@[0].width_px == 1200,
        r@[0].modes@[1].canvas_sizes@[0].height_px == 2100,
        r@[0].modes@[1].canvas_sizes@[0].safe_width_px == 1086,
        r@[0].modes@[1].canvas_sizes@[0].safe_height_px == 2031,
{
    let print = Mode {
        mode_type: ModeType::Print,
        canvas_sizes: vec![
            CanvasSize {
                name: "4x6".to_string(),
                media_size: 5012,
                media_type: 2010,
                width_px: 1200,
                height_px: 1800,
                safe_width_px: 1200,
                safe_height_px: 1800,
            },
        ],
    };
    let print_and_cut = Mode {
        mode_type: ModeType::PrintAndCut,
        canvas_sizes: vec![
            CanvasSize {
                name: "4x7".to_string(),
                media_size: 5013,
                media_type: 2030,
                width_px: 1200,
                height_px: 2100,
                safe_width_px: 1086,
                safe_height_px: 2031,
            },
        ],
    };
    vec![
        Device {
            name: "PixCut S1".to_string(),
            model: "DHP700".to_string(),
            dpi: 300,
            modes: vec![print, print_and_cut],
        },
    ]
}

} // verus!
