use rustic_light::animation::{color_spectrum, get_color_from_graph, map_graph_color};
use rustic_light::color::{Color, RgbDevice};
use rustic_light::rtx2080::Rtx2080;
use rustic_light::sk621::Sk621;
use rustic_light::z390::ZoneIndex;
use rustic_light::z390_device::Z390RgbDevice;

#[test]
fn graph_levels() {
    assert_eq!(map_graph_color(0, 0), 0);
    assert_eq!(map_graph_color(100, 0), 100);
    assert_eq!(map_graph_color(255, 0), 255);
    assert_eq!(map_graph_color(256, 0), 255);
    assert_eq!(map_graph_color(300, 0), 211);
    assert_eq!(map_graph_color(511, 0), 0);
    assert_eq!(map_graph_color(600, 0), 0);
    assert_eq!(map_graph_color(767 + 5, 0), 5);
    assert_eq!(map_graph_color(45, 255), 211);
    assert_eq!(map_graph_color(u32::MAX, 511), 207);
}

#[test]
fn graph_colors() {
    assert_eq!(get_color_from_graph(0), Color::new(0, 255, 0));
    assert_eq!(get_color_from_graph(123), Color::new(123, 133, 0));
    assert_eq!(get_color_from_graph(400), Color::new(111, 0, 144));
}

#[test]
fn spectrum_reaches_every_device() {
    let mut boxed: Vec<Box<dyn RgbDevice>> = vec![
        Box::new(Rtx2080::new("gpu".to_string())),
        Box::new(Sk621::new()),
        Box::new(Z390RgbDevice::new("JRgb1".to_string(), ZoneIndex::JRgb1)),
    ];
    color_spectrum(&mut boxed, 12345);
    assert_eq!(boxed.len(), 3);
    for d in boxed.iter_mut() {
        assert!(d.display());
    }
    assert_eq!(boxed[0].get_name(), "gpu");

    let mut zones = vec![Z390RgbDevice::new("JRgb2".to_string(), ZoneIndex::JRgb2)];
    color_spectrum(&mut zones, 12399);
    assert_eq!(zones[0].color, Color::new(123, 133, 0));
    assert!(zones[0].dirty);
}

#[test]
fn color_text() {
    assert_eq!(Color::new(255, 0, 12).to_string(), "rgb(255, 0, 12)");
    assert_eq!(Color::new(7, 42, 100).to_string(), "rgb(7, 42, 100)");
    assert_eq!(Color::new(0, 0, 0).to_string(), "rgb(0, 0, 0)");
}
