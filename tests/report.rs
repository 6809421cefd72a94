use rustic_light::color::Color;
use rustic_light::msi::{
    pack_speed_brightness, unpack_speed_brightness, MsiBrightness, MsiMode, MsiSpeed,
};
use rustic_light::z390::{ZoneData, ZoneIndex, Z390, REPORT_ID, REPORT_LEN};

const ALL_ZONES: [ZoneIndex; 16] = [
    ZoneIndex::JRgb1,
    ZoneIndex::JRainbow1,
    ZoneIndex::JCorsair1,
    ZoneIndex::JCorsairOuterll120,
    ZoneIndex::OnBoardLed,
    ZoneIndex::OnBoardLed1,
    ZoneIndex::OnBoardLed2,
    ZoneIndex::OnBoardLed3,
    ZoneIndex::OnBoardLed4,
    ZoneIndex::OnBoardLed5,
    ZoneIndex::OnBoardLed6,
    ZoneIndex::OnBoardLed7,
    ZoneIndex::OnBoardLed8,
    ZoneIndex::OnBoardLed9,
    ZoneIndex::OnBoardLed10,
    ZoneIndex::JRgb2,
];

#[test]
fn new_report_layout() {
    let board = Z390::new();
    let bytes = board.to_bytes();
    assert_eq!(bytes.len(), 162);
    assert_eq!(bytes[0], 0x52);
    assert_eq!(bytes[0], REPORT_ID);
    assert_eq!(bytes[161], 0);
    for z in ALL_ZONES {
        let o = z.offset();
        assert_eq!(&bytes[o..o + 10], &[1, 0, 0, 0, 0x28, 0, 0, 0, 0, 0]);
    }
}

#[test]
fn zone_offsets_table() {
    let expected = [1, 11, 21, 31, 41, 51, 61, 71, 81, 91, 101, 111, 121, 131, 141, 151];
    for (i, z) in ALL_ZONES.iter().enumerate() {
        assert_eq!(z.offset(), expected[i]);
        assert_eq!(z.slot(), i);
        assert_eq!(ZoneIndex::from_slot(i), *z);
    }
}

#[test]
fn color_lands_at_zone_offset_for_every_zone() {
    let c = Color::new(12, 34, 56);
    for z in ALL_ZONES {
        let mut board = Z390::new();
        let before = board.to_bytes();
        board.borrow_zone_data_indexed(z).color = c;
        let bytes = board.to_bytes();
        let o = z.offset();
        assert_eq!(&bytes[o + 1..o + 4], &[12, 34, 56]);
        for p in 0..REPORT_LEN {
            if p < o + 1 || p >= o + 4 {
                assert_eq!(bytes[p], before[p]);
            }
        }
    }
}

#[test]
fn to_bytes_twice_is_identical() {
    let mut board = Z390::new();
    board.borrow_zone_data_indexed(ZoneIndex::OnBoardLed7).color = Color::new(9, 8, 7);
    board.save_data = 1;
    let first = board.to_bytes();
    let second = board.to_bytes();
    assert_eq!(first, second);
}

#[test]
fn report_length_is_fixed() {
    let mut board = Z390::new();
    assert_eq!(board.to_bytes().len(), 162);
    board.write_zone_data_all(ZoneData {
        effect: 7,
        color: Color::new(1, 2, 3),
        speed_and_brightness_flags: 0xff,
        color2: Color::new(4, 5, 6),
        color_flags: 9,
        padding: 10,
    });
    let bytes = board.to_bytes();
    assert_eq!(bytes.len(), 162);
    assert_eq!(&bytes[151..161], &[7, 1, 2, 3, 0xff, 4, 5, 6, 9, 10]);
    assert_eq!(bytes[161], 0);
}

#[test]
fn write_zone_data_indexed_touches_one_zone() {
    let mut board = Z390::new();
    let mut d = ZoneData::new();
    d.color2 = Color::new(200, 100, 50);
    board.write_zone_data_indexed(ZoneIndex::JCorsair1, d);
    let bytes = board.to_bytes();
    assert_eq!(&bytes[21..31], &[1, 0, 0, 0, 0x28, 200, 100, 50, 0, 0]);
    assert_eq!(&bytes[11..21], &[1, 0, 0, 0, 0x28, 0, 0, 0, 0, 0]);
    assert_eq!(&bytes[31..41], &[1, 0, 0, 0, 0x28, 0, 0, 0, 0, 0]);
}

#[test]
fn record_round_trip() {
    let d = ZoneData {
        effect: 3,
        color: Color::new(10, 20, 30),
        speed_and_brightness_flags: 0x16,
        color2: Color::new(40, 50, 60),
        color_flags: 1,
        padding: 2,
    };
    let mut buffer = [0u8; 162];
    Z390::write_zone_data(&d, ZoneIndex::OnBoardLed9, &mut buffer);
    assert_eq!(&buffer[131..141], &[3, 10, 20, 30, 0x16, 40, 50, 60, 1, 2]);
    assert_eq!(buffer[130], 0);
    assert_eq!(buffer[141], 0);
    assert_eq!(Z390::read_zone_data(&buffer, ZoneIndex::OnBoardLed9), d);
}

#[test]
fn pack_unpack_law() {
    for speed in 0u8..=2 {
        for brightness in 0u8..=10 {
            let byte = pack_speed_brightness(speed, brightness);
            assert_eq!(byte, (brightness << 2) | (speed & 0x03));
            assert_eq!(unpack_speed_brightness(byte), (speed, brightness));
        }
    }
}

#[test]
fn pack_exact_values() {
    assert_eq!(pack_speed_brightness(2, 5), 0x16);
    assert_eq!(pack_speed_brightness(0, 10), 0x28);
    assert_eq!(pack_speed_brightness(7, 0), 3);
}

#[test]
fn controller_codes() {
    assert_eq!(MsiMode::Static.code(), 1);
    assert_eq!(MsiMode::Lava.code(), 39);
    assert_eq!(MsiSpeed::High.code(), 2);
    assert_eq!(MsiBrightness::Off.code(), 0);
    assert_eq!(MsiBrightness::Level100.code(), 10);
}
