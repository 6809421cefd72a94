use vstd::prelude::*;

use crate::color::{Color, RgbBrightness, RgbDevice, RgbMode, RgbSpeed};

verus! {

/// Register that takes the LED colour.
pub const RGB_FUSION_LED_COLOR_ADDRESS: u8 = 0x40;

/// Register that takes the effect and its speed.
pub const RGB_FUSION_MODE_SPEED_ADDRESS: u8 = 0x88;

/// Last byte of every effect frame.
pub const RGB_FUSION_MODE_TRAILER: u8 = 0x63;

/// Effect codes of the graphics card's lighting controller.
#[derive(Clone, Copy, PartialEq, Eq, Structural, Debug)]
pub enum RgbFusionMode {
    Static,
    Breathing,
    Flashing,
    DualFlashing,
    SpectrumCycle,
}

impl RgbFusionMode {
    pub open spec fn code_spec(self) -> u8 {
        match self {
            RgbFusionMode::Static => 0x01,
            RgbFusionMode::Breathing => 0x02,
            RgbFusionMode::Flashing => 0x04,
            RgbFusionMode::DualFlashing => 0x08,
            RgbFusionMode::SpectrumCycle => 0x11,
        }
    }

    pub fn code(self) -> (c: u8)
        ensures
            c == self.code_spec(),
    {
        match self {
            RgbFusionMode::Static => 0x01,
            RgbFusionMode::Breathing => 0x02,
            RgbFusionMode::Flashing => 0x04,
            RgbFusionMode::DualFlashing => 0x08,
            RgbFusionMode::SpectrumCycle => 0x11,
        }
    }

    pub open spec fn from_rgb_spec(mode: RgbMode) -> RgbFusionMode {
        match mode {
            RgbMode::Static => RgbFusionMode::Static,
        }
    }

    /// Translates a device-agnostic effect into the controller's own.
    pub fn from_rgb(mode: RgbMode) -> (m: RgbFusionMode)
        ensures
            m == Self::from_rgb_spec(mode),
    {
        match mode {
            RgbMode::Static => RgbFusionMode::Static,
        }
    }
}

/// Speed codes of the graphics card's lighting controller.
#[derive(Clone, Copy, PartialEq, Eq, Structural, Debug)]
pub enum RgbFusionSpeed {
    Slowest,
    Normal,
    Fastest,
}

impl RgbFusionSpeed {
    pub open spec fn code_spec(self) -> u8 {
        match self {
            RgbFusionSpeed::Slowest => 0x00,
            RgbFusionSpeed::Normal => 0x05,
            RgbFusionSpeed::Fastest => 0x09,
        }
    }

    pub fn code(self) -> (c: u8)
        ensures
            c == self.code_spec(),
    {
        match self {
            RgbFusionSpeed::Slowest => 0x00,
            RgbFusionSpeed::Normal => 0x05,
            RgbFusionSpeed::Fastest => 0x09,
        }
    }

    pub open spec fn from_rgb_spec(speed: RgbSpeed) -> RgbFusionSpeed {
        match speed {
            RgbSpeed::Slow => RgbFusionSpeed::Slowest,
            RgbSpeed::Medium => RgbFusionSpeed::Normal,
            RgbSpeed::Fast => RgbFusionSpeed::Fastest,
        }
    }

    /// Translates a device-agnostic speed into the controller's own.
    pub fn from_rgb(speed: RgbSpeed) -> (s: RgbFusionSpeed)
        ensures
            s == Self::from_rgb_spec(speed),
    {
        match speed {
            RgbSpeed::Slow => RgbFusionSpeed::Slowest,
            RgbSpeed::Medium => RgbFusionSpeed::Normal,
            RgbSpeed::Fast => RgbFusionSpeed::Fastest,
        }
    }
}

/// The I2C frame that sets the LED colour.
pub open spec fn color_frame_spec(color: Color) -> Seq<u8> {
    seq![RGB_FUSION_LED_COLOR_ADDRESS, color.r, color.g, color.b]
}

/// The I2C frame that sets the effect and its speed.
pub open spec fn mode_frame_spec(mode: RgbFusionMode, speed: RgbFusionSpeed) -> Seq<u8> {
    seq![RGB_FUSION_MODE_SPEED_ADDRESS, mode.code_spec(), speed.code_spec(), RGB_FUSION_MODE_TRAILER]
}

pub fn color_frame(color: Color) -> (frame: [u8; 4])
    ensures
        frame@ == color_frame_spec(color),
{
    let frame = [RGB_FUSION_LED_COLOR_ADDRESS, color.r, color.g, color.b];
    assert(frame@ =~= color_frame_spec(color));
    frame
}

pub fn mode_frame(mode: RgbFusionMode, speed: RgbFusionSpeed) -> (frame: [u8; 4])
    ensures
        frame@ == mode_frame_spec(mode, speed),
{
    let frame = [RGB_FUSION_MODE_SPEED_ADDRESS, mode.code(), speed.code(), RGB_FUSION_MODE_TRAILER];
    assert(frame@ =~= mode_frame_spec(mode, speed));
    frame
}

/// The lighting state of an RTX 2080 card, which is written to the card whole
/// at every display.
pub struct Rtx2080 {
    pub name: String,
    pub color: Color,
    pub mode: RgbMode,
    pub speed: RgbSpeed,
}

impl Rtx2080 {
    /// A card named `name`: black, static, slow.
    pub fn new(name: String) -> (card: Self)
        ensures
            card.name == name,
            card.color == (Color { r: 0, g: 0, b: 0 }),
            card.mode == RgbMode::Static,
            card.speed == RgbSpeed::Slow,
    {
        Rtx2080 { name, color: Color::new(0, 0, 0), mode: RgbMode::Static, speed: RgbSpeed::Slow }
    }

    /// The two frames a display writes, in order: colour, then effect and speed.
    pub open spec fn frames_spec(self) -> (Seq<u8>, Seq<u8>) {
        (
            color_frame_spec(self.color),
            mode_frame_spec(
                RgbFusionMode::from_rgb_spec(self.mode),
                RgbFusionSpeed::from_rgb_spec(self.speed),
            ),
        )
    }

    pub fn frames(&self) -> (frames: ([u8; 4], [u8; 4]))
        ensures
            (frames.0@, frames.1@) == self.frames_spec(),
    {
        let color = color_frame(self.color);
        let mode = mode_frame(RgbFusionMode::from_rgb(self.mode), RgbFusionSpeed::from_rgb(self.speed));
        (color, mode)
    }
}

impl RgbDevice for Rtx2080 {
    open spec fn color_view(&self) -> Color {
        self.color
    }

    open spec fn name_view(&self) -> Seq<char> {
        self.name@
    }

    fn set_color(&mut self, color: Color)
        ensures
            *final(self) == (Rtx2080 { color, ..*old(self) }),
    {
        self.color = color;
    }

    fn set_mode(&mut self, mode: RgbMode)
        ensures
            *final(self) == (Rtx2080 { mode, ..*old(self) }),
    {
        self.mode = mode;
    }

    fn set_speed(&mut self, speed: RgbSpeed)
        ensures
            *final(self) == (Rtx2080 { speed, ..*old(self) }),
    {
        self.speed = speed;
    }

    /// The card has no brightness control: the call changes nothing, so no
    /// frame it writes changes either.
    fn set_brightness(&mut self, brightness: RgbBrightness)
        ensures
            *final(self) == *old(self),
            final(self).frames_spec() == old(self).frames_spec(),
    {
    }

    fn get_name(&self) -> (name: &String) {
        &self.name
    }

    /// The card keeps no dirty flag: every display writes both frames.
    fn display(&mut self) -> (transmit: bool)
        ensures
            transmit,
            *final(self) == *old(self),
    {
        true
    }
}

} // verus!
