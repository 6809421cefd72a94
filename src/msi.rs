use vstd::prelude::*;

use crate::color::{RgbBrightness, RgbMode, RgbSpeed};

verus! {

/// Effect codes of the controller.
#[derive(Clone, Copy, PartialEq, Eq, Structural, Debug)]
pub enum MsiMode {
    Disable,
    Static,
    Breathing,
    Flashing,
    DoubleFlashing,
    Lightning,
    MsiMarquee,
    Meteor,
    WaterDrop,
    MsiRainbow,
    Pop,
    Rap,
    Jazz,
    Play,
    Movie,
    ColorRing,
    Planetary,
    DoubleMeteor,
    Energy,
    Blink,
    Clock,
    ColorPulse,
    ColorShift,
    ColorWave,
    Marquee,
    Rainbow,
    RainbowWave,
    Visor,
    Jrainbow,
    RainbowFlashing,
    RainbowDoubleFlashing,
    Random,
    FanControl,
    Disable2,
    ColorRingFlashing,
    ColorRingDoubleFlashing,
    Stack,
    CorsairQue,
    Fire,
    Lava,
}

impl MsiMode {
    pub open spec fn code_spec(self) -> u8 {
        match self {
            MsiMode::Disable => 0,
            MsiMode::Static => 1,
            MsiMode::Breathing => 2,
            MsiMode::Flashing => 3,
            MsiMode::DoubleFlashing => 4,
            MsiMode::Lightning => 5,
            MsiMode::MsiMarquee => 6,
            MsiMode::Meteor => 7,
            MsiMode::WaterDrop => 8,
            MsiMode::MsiRainbow => 9,
            MsiMode::Pop => 10,
            MsiMode::Rap => 11,
            MsiMode::Jazz => 12,
            MsiMode::Play => 13,
            MsiMode::Movie => 14,
            MsiMode::ColorRing => 15,
            MsiMode::Planetary => 16,
            MsiMode::DoubleMeteor => 17,
            MsiMode::Energy => 18,
            MsiMode::Blink => 19,
            MsiMode::Clock => 20,
            MsiMode::ColorPulse => 21,
            MsiMode::ColorShift => 22,
            MsiMode::ColorWave => 23,
            MsiMode::Marquee => 24,
            MsiMode::Rainbow => 25,
            MsiMode::RainbowWave => 26,
            MsiMode::Visor => 27,
            MsiMode::Jrainbow => 28,
            MsiMode::RainbowFlashing => 29,
            MsiMode::RainbowDoubleFlashing => 30,
            MsiMode::Random => 31,
            MsiMode::FanControl => 32,
            MsiMode::Disable2 => 33,
            MsiMode::ColorRingFlashing => 34,
            MsiMode::ColorRingDoubleFlashing => 35,
            MsiMode::Stack => 36,
            MsiMode::CorsairQue => 37,
            MsiMode::Fire => 38,
            MsiMode::Lava => 39,
        }
    }

    /// The byte the controller expects for this effect.
    pub fn code(self) -> (c: u8)
        ensures
            c == self.code_spec(),
    {
        match self {
            MsiMode::Disable => 0,
            MsiMode::Static => 1,
            MsiMode::Breathing => 2,
            MsiMode::Flashing => 3,
            MsiMode::DoubleFlashing => 4,
            MsiMode::Lightning => 5,
            MsiMode::MsiMarquee => 6,
            MsiMode::Meteor => 7,
            MsiMode::WaterDrop => 8,
            MsiMode::MsiRainbow => 9,
            MsiMode::Pop => 10,
            MsiMode::Rap => 11,
            MsiMode::Jazz => 12,
            MsiMode::Play => 13,
            MsiMode::Movie => 14,
            MsiMode::ColorRing => 15,
            MsiMode::Planetary => 16,
            MsiMode::DoubleMeteor => 17,
            MsiMode::Energy => 18,
            MsiMode::Blink => 19,
            MsiMode::Clock => 20,
            MsiMode::ColorPulse => 21,
            MsiMode::ColorShift => 22,
            MsiMode::ColorWave => 23,
            MsiMode::Marquee => 24,
            MsiMode::Rainbow => 25,
            MsiMode::RainbowWave => 26,
            MsiMode::Visor => 27,
            MsiMode::Jrainbow => 28,
            MsiMode::RainbowFlashing => 29,
            MsiMode::RainbowDoubleFlashing => 30,
            MsiMode::Random => 31,
            MsiMode::FanControl => 32,
            MsiMode::Disable2 => 33,
            MsiMode::ColorRingFlashing => 34,
            MsiMode::ColorRingDoubleFlashing => 35,
            MsiMode::Stack => 36,
            MsiMode::CorsairQue => 37,
            MsiMode::Fire => 38,
            MsiMode::Lava => 39,
        }
    }
}

/// Speed codes of the controller.
#[derive(Clone, Copy, PartialEq, Eq, Structural, Debug)]
pub enum MsiSpeed {
    Low,
    Medium,
    High,
}

impl MsiSpeed {
    pub open spec fn code_spec(self) -> u8 {
        match self {
            MsiSpeed::Low => 0,
            MsiSpeed::Medium => 1,
            MsiSpeed::High => 2,
        }
    }

    /// The two-bit code the controller expects for this speed.
    pub fn code(self) -> (c: u8)
        ensures
            c == self.code_spec(),
    {
        match self {
            MsiSpeed::Low => 0,
            MsiSpeed::Medium => 1,
            MsiSpeed::High => 2,
        }
    }

    pub open spec fn from_rgb_spec(speed: RgbSpeed) -> MsiSpeed {
        match speed {
            RgbSpeed::Slow => MsiSpeed::Low,
            RgbSpeed::Medium => MsiSpeed::Medium,
            RgbSpeed::Fast => MsiSpeed::High,
        }
    }

    /// Translates a device-agnostic speed into the controller's own.
    pub fn from_rgb(speed: RgbSpeed) -> (s: MsiSpeed)
        ensures
            s == Self::from_rgb_spec(speed),
    {
        match speed {
            RgbSpeed::Slow => MsiSpeed::Low,
            RgbSpeed::Medium => MsiSpeed::Medium,
            RgbSpeed::Fast => MsiSpeed::High,
        }
    }
}

/// Brightness codes of the controller: off, then 10% steps up to 100%.
#[derive(Clone, Copy, PartialEq, Eq, Structural, Debug)]
pub enum MsiBrightness {
    Off,
    Level10,
    Level20,
    Level30,
    Level40,
    Level50,
    Level60,
    Level70,
    Level80,
    Level90,
    Level100,
}

impl MsiBrightness {
    pub open spec fn code_spec(self) -> u8 {
        match self {
            MsiBrightness::Off => 0,
            MsiBrightness::Level10 => 1,
            MsiBrightness::Level20 => 2,
            MsiBrightness::Level30 => 3,
            MsiBrightness::Level40 => 4,
            MsiBrightness::Level50 => 5,
            MsiBrightness::Level60 => 6,
            MsiBrightness::Level70 => 7,
            MsiBrightness::Level80 => 8,
            MsiBrightness::Level90 => 9,
            MsiBrightness::Level100 => 10,
        }
    }

    /// The level the controller expects for this brightness.
    pub fn code(self) -> (c: u8)
        ensures
            c == self.code_spec(),
    {
        match self {
            MsiBrightness::Off => 0,
            MsiBrightness::Level10 => 1,
            MsiBrightness::Level20 => 2,
            MsiBrightness::Level30 => 3,
            MsiBrightness::Level40 => 4,
            MsiBrightness::Level50 => 5,
            MsiBrightness::Level60 => 6,
            MsiBrightness::Level70 => 7,
            MsiBrightness::Level80 => 8,
            MsiBrightness::Level90 => 9,
            MsiBrightness::Level100 => 10,
        }
    }

    pub open spec fn from_rgb_spec(brightness: RgbBrightness) -> MsiBrightness {
        match brightness {
            RgbBrightness::Level10 => MsiBrightness::Level10,
            RgbBrightness::Level20 => MsiBrightness::Level20,
            RgbBrightness::Level30 => MsiBrightness::Level30,
            RgbBrightness::Level40 => MsiBrightness::Level40,
            RgbBrightness::Level50 => MsiBrightness::Level50,
            RgbBrightness::Level60 => MsiBrightness::Level60,
            RgbBrightness::Level70 => MsiBrightness::Level70,
            RgbBrightness::Level80 => MsiBrightness::Level80,
            RgbBrightness::Level90 => MsiBrightness::Level90,
            RgbBrightness::Level100 => MsiBrightness::Level100,
        }
    }

    /// Translates a device-agnostic brightness into the controller's own.
    pub fn from_rgb(brightness: RgbBrightness) -> (b: MsiBrightness)
        ensures
            b == Self::from_rgb_spec(brightness),
    {
        match brightness {
            RgbBrightness::Level10 => MsiBrightness::Level10,
            RgbBrightness::Level20 => MsiBrightness::Level20,
            RgbBrightness::Level30 => MsiBrightness::Level30,
            RgbBrightness::Level40 => MsiBrightness::Level40,
            RgbBrightness::Level50 => MsiBrightness::Level50,
            RgbBrightness::Level60 => MsiBrightness::Level60,
            RgbBrightness::Level70 => MsiBrightness::Level70,
            RgbBrightness::Level80 => MsiBrightness::Level80,
            RgbBrightness::Level90 => MsiBrightness::Level90,
            RgbBrightness::Level100 => MsiBrightness::Level100,
        }
    }
}

impl MsiMode {
    pub open spec fn from_rgb_spec(mode: RgbMode) -> MsiMode {
        match mode {
            RgbMode::Static => MsiMode::Static,
        }
    }

    /// Translates a device-agnostic effect into the controller's own.
    pub fn from_rgb(mode: RgbMode) -> (m: MsiMode)
        ensures
            m == Self::from_rgb_spec(mode),
    {
        match mode {
            RgbMode::Static => MsiMode::Static,
        }
    }
}

/// The packed speed/brightness byte: brightness above, speed in the low two bits.
pub open spec fn pack_spec(speed: u8, brightness: u8) -> u8 {
    (brightness << 2u8) | (speed & 0x03u8)
}

/// The speed and the brightness that a packed byte holds.
pub open spec fn unpack_spec(byte: u8) -> (u8, u8) {
    (byte & 0x03u8, byte >> 2u8)
}

/// Packs a speed code and a brightness level into one byte.
pub fn pack_speed_brightness(speed: u8, brightness: u8) -> (byte: u8)
    ensures
        byte == pack_spec(speed, brightness),
{
    (brightness << 2u8) | (speed & 0x03u8)
}

/// Splits a packed byte into its speed code and its brightness level.
pub fn unpack_speed_brightness(byte: u8) -> (parts: (u8, u8))
    ensures
        parts == unpack_spec(byte),
{
    (byte & 0x03u8, byte >> 2u8)
}

/// Unpacking a packed byte gives back the speed and the brightness, for every
/// speed code 0..=2 and every brightness level 0..=10.
pub proof fn lemma_unpack_pack(speed: u8, brightness: u8)
    requires
        speed <= 2,
        brightness <= 10,
    ensures
        unpack_spec(pack_spec(speed, brightness)) == (speed, brightness),
{
    assert(((brightness << 2u8) | (speed & 0x03u8)) & 0x03u8 == speed) by (bit_vector)
        requires
            speed <= 2,
            brightness <= 10,
    ;
    assert(((brightness << 2u8) | (speed & 0x03u8)) >> 2u8 == brightness) by (bit_vector)
        requires
            speed <= 2,
            brightness <= 10,
    ;
}

} // verus!
