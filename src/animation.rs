use vstd::prelude::*;

use crate::color::{Color, RgbDevice};

verus! {

/// Length of one lap of the colour graph.
pub const MAX_MAP_GRAPH: u32 = 767;

/// Phase of each channel on the colour graph.
pub const R_OFFSET: u32 = 0;

pub const G_OFFSET: u32 = 255;

pub const B_OFFSET: u32 = 511;

/// One channel's level at a point of the lap: rising over 0..=255, falling
/// over 256..=511, dark over the rest.
pub open spec fn graph_level(p: int) -> int {
    if p <= 255 {
        p
    } else if p <= 511 {
        255 - (p - 256)
    } else {
        0
    }
}

/// A channel's level at `position`, shifted by the channel's phase `offset`.
pub open spec fn map_graph_spec(position: u32, offset: u32) -> u8 {
    graph_level((position + offset) % (MAX_MAP_GRAPH as int)) as u8
}

/// The colour at a point of the graph: each channel at its own phase.
pub open spec fn graph_color_spec(position: u32) -> Color {
    Color {
        r: map_graph_spec(position, R_OFFSET),
        g: map_graph_spec(position, G_OFFSET),
        b: map_graph_spec(position, B_OFFSET),
    }
}

/// The colour of the spectrum animation `millis` milliseconds after it began:
/// the graph advances one step every tenth of a second, the step count taken
/// as a `u32`.
pub open spec fn spectrum_color_spec(millis: u128) -> Color {
    graph_color_spec((millis / 100) as u32)
}

pub fn map_graph_color(position: u32, offset: u32) -> (level: u8)
    ensures
        level == map_graph_spec(position, offset),
        0 <= graph_level((position + offset) % (MAX_MAP_GRAPH as int)) <= 255,
{
    let p: u64 = (position as u64 + offset as u64) % (MAX_MAP_GRAPH as u64);
    if p <= 255 {
        return p as u8;
    }
    if p >= 256 && p <= 511 {
        return (255 - (p - 256)) as u8;
    }
    0
}

pub fn get_color_from_graph(position: u128) -> (c: Color)
    ensures
        c == graph_color_spec(position as u32),
{
    let p = position as u32;
    Color::new(
        map_graph_color(p, R_OFFSET),
        map_graph_color(p, G_OFFSET),
        map_graph_color(p, B_OFFSET),
    )
}

/// Gives every device the spectrum's colour at `millis`; the devices show it
/// at their next display.
pub fn color_spectrum<D: RgbDevice>(rgb_devices: &mut Vec<D>, millis: u128)
    ensures
        final(rgb_devices)@.len() == old(rgb_devices)@.len(),
        forall|i: int|
            0 <= i < old(rgb_devices)@.len() ==> (#[trigger] final(rgb_devices)@[i]).color_view()
                == spectrum_color_spec(millis),
        forall|i: int|
            0 <= i < old(rgb_devices)@.len() ==> (#[trigger] final(rgb_devices)@[i]).name_view()
                == old(rgb_devices)@[i].name_view(),
{
    let scaled = millis / 100;
    let color = get_color_from_graph(scaled);
    let mut i: usize = 0;
    while i < rgb_devices.len()
        invariant
            0 <= i <= rgb_devices@.len(),
            rgb_devices@.len() == old(rgb_devices)@.len(),
            color == spectrum_color_spec(millis),
            forall|k: int| 0 <= k < i ==> (#[trigger] rgb_devices@[k]).color_view() == color,
            forall|k: int|
                0 <= k < rgb_devices@.len() ==> (#[trigger] rgb_devices@[k]).name_view()
                    == old(rgb_devices)@[k].name_view(),
        decreases rgb_devices@.len() - i,
    {
        rgb_devices[i].set_color(color);
        i += 1;
    }
}

} // verus!
