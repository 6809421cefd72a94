use vstd::prelude::*;

use crate::color::{Color, RgbBrightness, RgbDevice, RgbMode, RgbSpeed};

verus! {

/// The lighting state of an SK621 keyboard, lit in one colour as a whole.
pub struct Sk621 {
    pub name: String,
    pub color: Color,
}

impl Sk621 {
    /// The keyboard, black until its first colour.
    pub fn new() -> (keyboard: Self)
        ensures
            keyboard.name@ == "sk621"@,
            keyboard.color == (Color { r: 0, g: 0, b: 0 }),
    {
        proof {
            reveal_strlit("sk621");
        }
        Sk621 { name: "sk621".to_owned(), color: Color::new(0, 0, 0) }
    }
}

impl RgbDevice for Sk621 {
    open spec fn color_view(&self) -> Color {
        self.color
    }

    open spec fn name_view(&self) -> Seq<char> {
        self.name@
    }

    fn set_color(&mut self, color: Color)
        ensures
            *final(self) == (Sk621 { color, ..*old(self) }),
    {
        self.color = color;
    }

    /// Not supported by the keyboard: nothing changes.
    fn set_mode(&mut self, mode: RgbMode)
        ensures
            *final(self) == *old(self),
    {
    }

    /// Not supported by the keyboard: nothing changes.
    fn set_speed(&mut self, speed: RgbSpeed)
        ensures
            *final(self) == *old(self),
    {
    }

    /// Not supported by the keyboard: nothing changes.
    fn set_brightness(&mut self, brightness: RgbBrightness)
        ensures
            *final(self) == *old(self),
    {
    }

    fn get_name(&self) -> (name: &String) {
        &self.name
    }

    /// The keyboard keeps no dirty flag: every display sends its colour.
    fn display(&mut self) -> (transmit: bool)
        ensures
            transmit,
            *final(self) == *old(self),
    {
        true
    }
}

} // verus!
