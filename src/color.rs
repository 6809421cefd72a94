use vstd::prelude::*;
use vstd::string::StringExecFns;

verus! {

/// One RGB triple, eight bits per channel, copied by value.
#[derive(Clone, Copy, PartialEq, Eq, Structural, Debug)]
pub struct Color {
    pub r: u8,
    pub g: u8,
    pub b: u8,
}

impl Color {
    pub fn new(r: u8, g: u8, b: u8) -> (c: Self)
        ensures
            c.r == r,
            c.g == g,
            c.b == b,
    {
        Color { r, g, b }
    }
}

/// The character of one decimal digit.
pub open spec fn digit_char(d: nat) -> char {
    if d == 0 {
        '0'
    } else if d == 1 {
        '1'
    } else if d == 2 {
        '2'
    } else if d == 3 {
        '3'
    } else if d == 4 {
        '4'
    } else if d == 5 {
        '5'
    } else if d == 6 {
        '6'
    } else if d == 7 {
        '7'
    } else if d == 8 {
        '8'
    } else {
        '9'
    }
}

/// The decimal digits of `n`, without leading zeros.
pub open spec fn decimal(n: nat) -> Seq<char>
    decreases n,
{
    if n < 10 {
        seq![digit_char(n)]
    } else {
        decimal(n / 10) + seq![digit_char(n % 10)]
    }
}

/// How a colour is written: `rgb(r, g, b)`, each channel in decimal.
pub open spec fn color_text(c: Color) -> Seq<char> {
    "rgb("@ + decimal(c.r as nat) + ", "@ + decimal(c.g as nat) + ", "@ + decimal(c.b as nat) + ")"@
}

fn digit(d: u8) -> (text: &'static str)
    requires
        d < 10,
    ensures
        text@ == seq![digit_char(d as nat)],
{
    proof {
        reveal_strlit("0");
        reveal_strlit("1");
        reveal_strlit("2");
        reveal_strlit("3");
        reveal_strlit("4");
        reveal_strlit("5");
        reveal_strlit("6");
        reveal_strlit("7");
        reveal_strlit("8");
        reveal_strlit("9");
    }
    match d {
        0 => "0",
        1 => "1",
        2 => "2",
        3 => "3",
        4 => "4",
        5 => "5",
        6 => "6",
        7 => "7",
        8 => "8",
        _ => "9",
    }
}

fn push_decimal(text: &mut String, n: u8)
    ensures
        final(text)@ == old(text)@ + decimal(n as nat),
{
    if n >= 100 {
        text.append(digit(n / 100));
        text.append(digit((n / 10) % 10));
        text.append(digit(n % 10));
        assert(decimal((n / 100) as nat) == seq![digit_char((n / 100) as nat)]);
        assert(decimal((n / 10) as nat) =~= decimal((n / 100) as nat) + seq![
            digit_char(((n / 10) % 10) as nat),
        ]);
    } else if n >= 10 {
        text.append(digit(n / 10));
        text.append(digit(n % 10));
        assert(decimal((n / 10) as nat) == seq![digit_char((n / 10) as nat)]);
    } else {
        text.append(digit(n));
    }
    assert(final(text)@ =~= old(text)@ + decimal(n as nat));
}

impl Color {
    /// The colour as text, in the form `rgb(255, 0, 12)`.
    pub fn to_string(&self) -> (text: String)
        ensures
            text@ == color_text(*self),
    {
        proof {
            reveal_strlit("rgb(");
            reveal_strlit(", ");
            reveal_strlit(")");
        }
        let mut text = String::new();
        text.append("rgb(");
        push_decimal(&mut text, self.r);
        text.append(", ");
        push_decimal(&mut text, self.g);
        text.append(", ");
        push_decimal(&mut text, self.b);
        text.append(")");
        assert(text@ =~= color_text(*self));
        text
    }
}

/// Brightness levels understood by every device, from 10% to 100%.
#[derive(Clone, Copy, PartialEq, Eq, Structural, Debug)]
pub enum RgbBrightness {
    Level10,
    Level20,
    Level30,
    Level40,
    Level50,
    Level60,
    Level70,
    Level80,
    Level90,
    Level100,
}

/// Animation speeds understood by every device.
#[derive(Clone, Copy, PartialEq, Eq, Structural, Debug)]
pub enum RgbSpeed {
    Slow,
    Medium,
    Fast,
}

/// Lighting effects understood by every device.
#[derive(Clone, Copy, PartialEq, Eq, Structural, Debug)]
pub enum RgbMode {
    Static,
}

/// The capability set shared by every lighting device, whatever carries its
/// state to the hardware.
///
/// A device that cannot honour a capability accepts the call and ignores it.
/// `display` hands the pending state over for transmission: it answers whether
/// the caller has to transmit now.
pub trait RgbDevice {
    /// The colour the device shows once displayed.
    spec fn color_view(&self) -> Color;

    /// The device's display name.
    spec fn name_view(&self) -> Seq<char>;

    fn set_color(&mut self, color: Color)
        ensures
            final(self).color_view() == color,
            final(self).name_view() == old(self).name_view(),
    ;

    fn set_mode(&mut self, mode: RgbMode)
        ensures
            final(self).color_view() == old(self).color_view(),
            final(self).name_view() == old(self).name_view(),
    ;

    fn set_speed(&mut self, speed: RgbSpeed)
        ensures
            final(self).color_view() == old(self).color_view(),
            final(self).name_view() == old(self).name_view(),
    ;

    fn set_brightness(&mut self, brightness: RgbBrightness)
        ensures
            final(self).color_view() == old(self).color_view(),
            final(self).name_view() == old(self).name_view(),
    ;

    fn get_name(&self) -> (name: &String)
        ensures
            name@ == self.name_view(),
    ;

    fn display(&mut self) -> (transmit: bool)
        ensures
            final(self).color_view() == old(self).color_view(),
            final(self).name_view() == old(self).name_view(),
    ;
}

/// A boxed device, `Box<dyn RgbDevice>` included, is the device it holds.
impl<T: RgbDevice + ?Sized> RgbDevice for Box<T> {
    open spec fn color_view(&self) -> Color {
        (**self).color_view()
    }

    open spec fn name_view(&self) -> Seq<char> {
        (**self).name_view()
    }

    fn set_color(&mut self, color: Color) {
        (**self).set_color(color)
    }

    fn set_mode(&mut self, mode: RgbMode) {
        (**self).set_mode(mode)
    }

    fn set_speed(&mut self, speed: RgbSpeed) {
        (**self).set_speed(speed)
    }

    fn set_brightness(&mut self, brightness: RgbBrightness) {
        (**self).set_brightness(brightness)
    }

    fn get_name(&self) -> (name: &String) {
        (**self).get_name()
    }

    fn display(&mut self) -> (transmit: bool) {
        (**self).display()
    }
}

} // verus!
