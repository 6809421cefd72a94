use rustic_light::color::{Color, RgbBrightness, RgbDevice, RgbMode, RgbSpeed};
use rustic_light::rtx2080::{color_frame, mode_frame, RgbFusionMode, RgbFusionSpeed, Rtx2080};
use rustic_light::sk621::Sk621;
use rustic_light::z390::{ZoneIndex, Z390};
use rustic_light::z390_device::{get_z390_rgb_devices, Z390RgbDevice};

fn zone_device(name: &str, z: ZoneIndex) -> Z390RgbDevice {
    Z390RgbDevice::new(name.to_string(), z)
}

#[test]
fn two_zones_one_display_each() {
    let mut board = Z390::new();
    let mut devices = vec![
        zone_device("A", ZoneIndex::JRgb1),
        zone_device("B", ZoneIndex::OnBoardLed),
    ];
    devices[0].set_color(Color::new(255, 0, 0));
    devices[1].set_color(Color::new(0, 255, 0));
    let report = board.flush(&mut devices).expect("one report is due");
    assert_eq!(&report[1..5], &[1, 255, 0, 0]);
    assert_eq!(&report[41..45], &[1, 0, 255, 0]);
    assert_eq!(report.len(), 162);
    assert!(!devices[0].dirty);
    assert!(!devices[1].dirty);
    assert!(board.flush(&mut devices).is_none());
}

#[test]
fn two_facades_different_zones_coalesce_into_one_report() {
    let mut board = Z390::new();
    let mut devices = get_z390_rgb_devices();
    devices[3].set_color(Color::new(1, 2, 3));
    devices[12].set_color(Color::new(4, 5, 6));
    let report = board.flush(&mut devices).expect("one report is due");
    assert_eq!(&report[31..41], &[1, 1, 2, 3, 0x28, 1, 2, 3, 0, 0]);
    assert_eq!(&report[121..131], &[1, 4, 5, 6, 0x28, 4, 5, 6, 0, 0]);
    assert_eq!(report, board.to_bytes());
    assert!(board.flush(&mut devices).is_none());
}

#[test]
fn brightness_then_speed_packs_exactly() {
    let mut board = Z390::new();
    let mut devices = vec![zone_device("A", ZoneIndex::JRainbow1)];
    devices[0].set_brightness(RgbBrightness::Level50);
    devices[0].set_speed(RgbSpeed::Fast);
    let report = board.flush(&mut devices).expect("one report is due");
    assert_eq!(report[15], 0x16);
    assert_eq!(report[15], (5 << 2) | 2);
}

#[test]
fn zone_device_caches_and_marks_dirty() {
    let mut d = zone_device("zone", ZoneIndex::JRgb2);
    assert!(!d.dirty);
    d.set_mode(RgbMode::Static);
    assert!(d.dirty);
    assert!(d.display());
    assert!(!d.dirty);
    assert!(!d.display());
    d.set_color(Color::new(7, 7, 7));
    assert_eq!(d.color, Color::new(7, 7, 7));
    assert_eq!(d.get_name(), "zone");
}

#[test]
fn clean_facades_leave_the_buffer_alone() {
    let mut board = Z390::new();
    board.borrow_zone_data_indexed(ZoneIndex::JRgb1).color = Color::new(9, 9, 9);
    let before = board.to_bytes();
    let mut devices = get_z390_rgb_devices();
    assert!(board.flush(&mut devices).is_none());
    assert_eq!(board.to_bytes(), before);
}

#[test]
fn z390_device_list() {
    let devices = get_z390_rgb_devices();
    let names = [
        "JRgb1",
        "JRainbow1",
        "JCorsair1",
        "JCorsairOuterll120",
        "OnBoardLed",
        "OnBoardLed1",
        "OnBoardLed2",
        "OnBoardLed3",
        "OnBoardLed4",
        "OnBoardLed5",
        "OnBoardLed6",
        "OnBoardLed7",
        "OnBoardLed8",
        "OnBoardLed9",
        "OnBoardLed10",
        "JRgb2",
    ];
    assert_eq!(devices.len(), 16);
    for (i, d) in devices.iter().enumerate() {
        assert_eq!(d.get_name(), names[i]);
        assert_eq!(d.zone_index.slot(), i);
        assert!(!d.dirty);
        assert_eq!(d.brightness, RgbBrightness::Level100);
        assert_eq!(d.speed, RgbSpeed::Slow);
    }
}

#[test]
fn rtx2080_frames() {
    let mut card = Rtx2080::new("RTX 2080".to_string());
    card.set_color(Color::new(10, 20, 30));
    card.set_speed(RgbSpeed::Medium);
    assert!(card.display());
    let (color, mode) = card.frames();
    assert_eq!(color, [0x40, 10, 20, 30]);
    assert_eq!(mode, [0x88, 0x01, 0x05, 0x63]);
    assert_eq!(card.get_name(), "RTX 2080");
}

#[test]
fn rtx2080_ignores_brightness() {
    let mut card = Rtx2080::new("card".to_string());
    card.set_color(Color::new(1, 2, 3));
    let before = card.frames();
    card.set_brightness(RgbBrightness::Level10);
    assert_eq!(card.frames(), before);
    assert_eq!(card.color, Color::new(1, 2, 3));
}

#[test]
fn sk621_ignores_unsupported_capabilities() {
    let mut keyboard = Sk621::new();
    keyboard.set_color(Color::new(5, 6, 7));
    keyboard.set_mode(RgbMode::Static);
    keyboard.set_speed(RgbSpeed::Fast);
    keyboard.set_brightness(RgbBrightness::Level20);
    assert_eq!(keyboard.color, Color::new(5, 6, 7));
    assert_eq!(keyboard.get_name(), "sk621");
    assert!(keyboard.display());
    assert_eq!(keyboard.color, Color::new(5, 6, 7));
}

#[test]
fn fusion_frames_exact() {
    assert_eq!(color_frame(Color::new(255, 128, 0)), [0x40, 255, 128, 0]);
    assert_eq!(
        mode_frame(RgbFusionMode::SpectrumCycle, RgbFusionSpeed::Fastest),
        [0x88, 0x11, 0x09, 0x63]
    );
    assert_eq!(RgbFusionMode::DualFlashing.code(), 0x08);
    assert_eq!(RgbFusionSpeed::Slowest.code(), 0x00);
}
