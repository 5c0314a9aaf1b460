//! The LED animation modes a badge can run.

use vstd::prelude::*;

verus! {

/// An LED animation mode; the device identifies each by its ordinal.
#[derive(Debug, Clone, Copy, PartialEq, Eq, Structural)]
pub enum LedMode {
    Manual,
    Rainbow,
    Snowstorm,
    RedChase,
    RainbowChase,
    BlueChase,
    GreenDot,
    BlueDot,
    BlueSin,
    WhiteFade,
    BarGraph,
    Zylon,
    Audio,
    Accel,
}

/// The highest ordinal of any mode.
pub const MAX_LED_ORDINAL: u8 = 13;

impl LedMode {
    /// The ordinal the device uses for this mode.
    pub open spec fn ordinal(self) -> nat {
        match self {
            LedMode::Manual => 0,
            LedMode::Rainbow => 1,
            LedMode::Snowstorm => 2,
            LedMode::RedChase => 3,
            LedMode::RainbowChase => 4,
            LedMode::BlueChase => 5,
            LedMode::GreenDot => 6,
            LedMode::BlueDot => 7,
            LedMode::BlueSin => 8,
            LedMode::WhiteFade => 9,
            LedMode::BarGraph => 10,
            LedMode::Zylon => 11,
            LedMode::Audio => 12,
            LedMode::Accel => 13,
        }
    }

    /// The label shown to a person choosing this mode.
    pub open spec fn label(self) -> Seq<char> {
        match self {
            LedMode::Manual => "Manual"@,
            LedMode::Rainbow => "Rainbow"@,
            LedMode::Snowstorm => "Snowstorm"@,
            LedMode::RedChase => "Red Chase"@,
            LedMode::RainbowChase => "Rainbow Chase"@,
            LedMode::BlueChase => "Blue Chase"@,
            LedMode::GreenDot => "Green Dot"@,
            LedMode::BlueDot => "Blue Dot"@,
            LedMode::BlueSin => "Blue Sin"@,
            LedMode::WhiteFade => "White Fade"@,
            LedMode::BarGraph => "Bar Graph"@,
            LedMode::Zylon => "Zylon"@,
            LedMode::Audio => "Audio"@,
            LedMode::Accel => "Accelerometer"@,
        }
    }

    pub fn display_name(&self) -> (r: &'static str)
        ensures
            r@ == self.label(),
    {
        match self {
            LedMode::Manual => "Manual",
            LedMode::Rainbow => "Rainbow",
            LedMode::Snowstorm => "Snowstorm",
            LedMode::RedChase => "Red Chase",
            LedMode::RainbowChase => "Rainbow Chase",
            LedMode::BlueChase => "Blue Chase",
            LedMode::GreenDot => "Green Dot",
            LedMode::BlueDot => "Blue Dot",
            LedMode::BlueSin => "Blue Sin",
            LedMode::WhiteFade => "White Fade",
            LedMode::BarGraph => "Bar Graph",
            LedMode::Zylon => "Zylon",
            LedMode::Audio => "Audio",
            LedMode::Accel => "Accelerometer",
        }
    }

    pub fn as_integer(&self) -> (r: u8)
        ensures
            r == self.ordinal(),
            r <= MAX_LED_ORDINAL,
    {
        match self {
            LedMode::Manual => 0,
            LedMode::Rainbow => 1,
            LedMode::Snowstorm => 2,
            LedMode::RedChase => 3,
            LedMode::RainbowChase => 4,
            LedMode::BlueChase => 5,
            LedMode::GreenDot => 6,
            LedMode::BlueDot => 7,
            LedMode::BlueSin => 8,
            LedMode::WhiteFade => 9,
            LedMode::BarGraph => 10,
            LedMode::Zylon => 11,
            LedMode::Audio => 12,
            LedMode::Accel => 13,
        }
    }

    /// The mode with the given ordinal, if there is one.
    pub fn from_integer(n: u8) -> (r: Option<LedMode>)
        ensures
            r matches Some(m) ==> m.ordinal() == n,
            r is None <==> n > MAX_LED_ORDINAL,
    {
        match n {
            0 => Some(LedMode::Manual),
            1 => Some(LedMode::Rainbow),
            2 => Some(LedMode::Snowstorm),
            3 => Some(LedMode::RedChase),
            4 => Some(LedMode::RainbowChase),
            5 => Some(LedMode::BlueChase),
            6 => Some(LedMode::GreenDot),
            7 => Some(LedMode::BlueDot),
            8 => Some(LedMode::BlueSin),
            9 => Some(LedMode::WhiteFade),
            10 => Some(LedMode::BarGraph),
            11 => Some(LedMode::Zylon),
            12 => Some(LedMode::Audio),
            13 => Some(LedMode::Accel),
            _ => None,
        }
    }
}

} // verus!
