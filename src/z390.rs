use vstd::prelude::*;

use crate::color::Color;
use crate::msi::{pack_spec, pack_speed_brightness, MsiBrightness, MsiMode, MsiSpeed};

verus! {

/// Size in bytes of one serialized zone record.
pub const ZONE_LEN: usize = 10;

/// Number of zones held by one report.
pub const ZONE_COUNT: usize = 16;

/// Size in bytes of the whole feature report: header, zones, trailer.
pub const REPORT_LEN: usize = 162;

/// The report id that opens every report.
pub const REPORT_ID: u8 = 0x52;

/// One zone's persisted lighting state, mirrored byte for byte into the report.
#[derive(Clone, Copy, PartialEq, Eq, Structural, Debug)]
pub struct ZoneData {
    pub effect: u8,
    pub color: Color,
    pub speed_and_brightness_flags: u8,
    pub color2: Color,
    pub color_flags: u8,
    pub padding: u8,
}

/// The ten bytes of one zone record, in wire order.
pub open spec fn zone_bytes(d: ZoneData) -> Seq<u8> {
    seq![
        d.effect,
        d.color.r,
        d.color.g,
        d.color.b,
        d.speed_and_brightness_flags,
        d.color2.r,
        d.color2.g,
        d.color2.b,
        d.color_flags,
        d.padding,
    ]
}

impl ZoneData {
    /// Static effect, black in both colours, full brightness at low speed.
    pub open spec fn default_spec() -> ZoneData {
        ZoneData {
            effect: MsiMode::Static.code_spec(),
            color: Color { r: 0, g: 0, b: 0 },
            speed_and_brightness_flags: pack_spec(
                MsiSpeed::Low.code_spec(),
                MsiBrightness::Level100.code_spec(),
            ),
            color2: Color { r: 0, g: 0, b: 0 },
            color_flags: 0,
            padding: 0,
        }
    }

    pub fn new() -> (d: Self)
        ensures
            d == Self::default_spec(),
    {
        ZoneData {
            effect: MsiMode::Static.code(),
            color: Color::new(0, 0, 0),
            speed_and_brightness_flags: pack_speed_brightness(
                MsiSpeed::Low.code(),
                MsiBrightness::Level100.code(),
            ),
            color2: Color::new(0, 0, 0),
            color_flags: 0,
            padding: 0,
        }
    }
}

/// The zones of the controller, in the order of the report.
#[derive(Clone, Copy, PartialEq, Eq, Structural, Debug)]
pub enum ZoneIndex {
    JRgb1,
    JRainbow1,
    JCorsair1,
    JCorsairOuterll120,
    OnBoardLed,
    OnBoardLed1,
    OnBoardLed2,
    OnBoardLed3,
    OnBoardLed4,
    OnBoardLed5,
    OnBoardLed6,
    OnBoardLed7,
    OnBoardLed8,
    OnBoardLed9,
    OnBoardLed10,
    JRgb2,
}

impl ZoneIndex {
    /// The zone's position in the table of zones.
    pub open spec fn slot_spec(self) -> int {
        match self {
            ZoneIndex::JRgb1 => 0,
            ZoneIndex::JRainbow1 => 1,
            ZoneIndex::JCorsair1 => 2,
            ZoneIndex::JCorsairOuterll120 => 3,
            ZoneIndex::OnBoardLed => 4,
            ZoneIndex::OnBoardLed1 => 5,
            ZoneIndex::OnBoardLed2 => 6,
            ZoneIndex::OnBoardLed3 => 7,
            ZoneIndex::OnBoardLed4 => 8,
            ZoneIndex::OnBoardLed5 => 9,
            ZoneIndex::OnBoardLed6 => 10,
            ZoneIndex::OnBoardLed7 => 11,
            ZoneIndex::OnBoardLed8 => 12,
            ZoneIndex::OnBoardLed9 => 13,
            ZoneIndex::OnBoardLed10 => 14,
            ZoneIndex::JRgb2 => 15,
        }
    }

    /// Where the zone's record starts in the report.
    pub open spec fn offset_spec(self) -> int {
        match self {
            ZoneIndex::JRgb1 => 1,
            ZoneIndex::JRainbow1 => 11,
            ZoneIndex::JCorsair1 => 21,
            ZoneIndex::JCorsairOuterll120 => 31,
            ZoneIndex::OnBoardLed => 41,
            ZoneIndex::OnBoardLed1 => 51,
            ZoneIndex::OnBoardLed2 => 61,
            ZoneIndex::OnBoardLed3 => 71,
            ZoneIndex::OnBoardLed4 => 81,
            ZoneIndex::OnBoardLed5 => 91,
            ZoneIndex::OnBoardLed6 => 101,
            ZoneIndex::OnBoardLed7 => 111,
            ZoneIndex::OnBoardLed8 => 121,
            ZoneIndex::OnBoardLed9 => 131,
            ZoneIndex::OnBoardLed10 => 141,
            ZoneIndex::JRgb2 => 151,
        }
    }

    pub fn slot(self) -> (s: usize)
        ensures
            s == self.slot_spec(),
    {
        match self {
            ZoneIndex::JRgb1 => 0,
            ZoneIndex::JRainbow1 => 1,
            ZoneIndex::JCorsair1 => 2,
            ZoneIndex::JCorsairOuterll120 => 3,
            ZoneIndex::OnBoardLed => 4,
            ZoneIndex::OnBoardLed1 => 5,
            ZoneIndex::OnBoardLed2 => 6,
            ZoneIndex::OnBoardLed3 => 7,
            ZoneIndex::OnBoardLed4 => 8,
            ZoneIndex::OnBoardLed5 => 9,
            ZoneIndex::OnBoardLed6 => 10,
            ZoneIndex::OnBoardLed7 => 11,
            ZoneIndex::OnBoardLed8 => 12,
            ZoneIndex::OnBoardLed9 => 13,
            ZoneIndex::OnBoardLed10 => 14,
            ZoneIndex::JRgb2 => 15,
        }
    }

    pub fn offset(self) -> (o: usize)
        ensures
            o == self.offset_spec(),
    {
        match self {
            ZoneIndex::JRgb1 => 1,
            ZoneIndex::JRainbow1 => 11,
            ZoneIndex::JCorsair1 => 21,
            ZoneIndex::JCorsairOuterll120 => 31,
            ZoneIndex::OnBoardLed => 41,
            ZoneIndex::OnBoardLed1 => 51,
            ZoneIndex::OnBoardLed2 => 61,
            ZoneIndex::OnBoardLed3 => 71,
            ZoneIndex::OnBoardLed4 => 81,
            ZoneIndex::OnBoardLed5 => 91,
            ZoneIndex::OnBoardLed6 => 101,
            ZoneIndex::OnBoardLed7 => 111,
            ZoneIndex::OnBoardLed8 => 121,
            ZoneIndex::OnBoardLed9 => 131,
            ZoneIndex::OnBoardLed10 => 141,
            ZoneIndex::JRgb2 => 151,
        }
    }

    /// The zone's display name.
    pub open spec fn name_spec(self) -> Seq<char> {
        match self {
            ZoneIndex::JRgb1 => "JRgb1"@,
            ZoneIndex::JRainbow1 => "JRainbow1"@,
            ZoneIndex::JCorsair1 => "JCorsair1"@,
            ZoneIndex::JCorsairOuterll120 => "JCorsairOuterll120"@,
            ZoneIndex::OnBoardLed => "OnBoardLed"@,
            ZoneIndex::OnBoardLed1 => "OnBoardLed1"@,
            ZoneIndex::OnBoardLed2 => "OnBoardLed2"@,
            ZoneIndex::OnBoardLed3 => "OnBoardLed3"@,
            ZoneIndex::OnBoardLed4 => "OnBoardLed4"@,
            ZoneIndex::OnBoardLed5 => "OnBoardLed5"@,
            ZoneIndex::OnBoardLed6 => "OnBoardLed6"@,
            ZoneIndex::OnBoardLed7 => "OnBoardLed7"@,
            ZoneIndex::OnBoardLed8 => "OnBoardLed8"@,
            ZoneIndex::OnBoardLed9 => "OnBoardLed9"@,
            ZoneIndex::OnBoardLed10 => "OnBoardLed10"@,
            ZoneIndex::JRgb2 => "JRgb2"@,
        }
    }

    pub fn name(self) -> (name: &'static str)
        ensures
            name@ == self.name_spec(),
    {
        proof {
            reveal_strlit("JRgb1");
            reveal_strlit("JRainbow1");
            reveal_strlit("JCorsair1");
            reveal_strlit("JCorsairOuterll120");
            reveal_strlit("OnBoardLed");
            reveal_strlit("OnBoardLed1");
            reveal_strlit("OnBoardLed2");
            reveal_strlit("OnBoardLed3");
            reveal_strlit("OnBoardLed4");
            reveal_strlit("OnBoardLed5");
            reveal_strlit("OnBoardLed6");
            reveal_strlit("OnBoardLed7");
            reveal_strlit("OnBoardLed8");
            reveal_strlit("OnBoardLed9");
            reveal_strlit("OnBoardLed10");
            reveal_strlit("JRgb2");
        }
        match self {
            ZoneIndex::JRgb1 => "JRgb1",
            ZoneIndex::JRainbow1 => "JRainbow1",
            ZoneIndex::JCorsair1 => "JCorsair1",
            ZoneIndex::JCorsairOuterll120 => "JCorsairOuterll120",
            ZoneIndex::OnBoardLed => "OnBoardLed",
            ZoneIndex::OnBoardLed1 => "OnBoardLed1",
            ZoneIndex::OnBoardLed2 => "OnBoardLed2",
            ZoneIndex::OnBoardLed3 => "OnBoardLed3",
            ZoneIndex::OnBoardLed4 => "OnBoardLed4",
            ZoneIndex::OnBoardLed5 => "OnBoardLed5",
            ZoneIndex::OnBoardLed6 => "OnBoardLed6",
            ZoneIndex::OnBoardLed7 => "OnBoardLed7",
            ZoneIndex::OnBoardLed8 => "OnBoardLed8",
            ZoneIndex::OnBoardLed9 => "OnBoardLed9",
            ZoneIndex::OnBoardLed10 => "OnBoardLed10",
            ZoneIndex::JRgb2 => "JRgb2",
        }
    }

    /// The zone at a position of the table.
    pub fn from_slot(slot: usize) -> (z: ZoneIndex)
        requires
            slot < ZONE_COUNT,
        ensures
            z.slot_spec() == slot,
    {
        match slot {
            0 => ZoneIndex::JRgb1,
            1 => ZoneIndex::JRainbow1,
            2 => ZoneIndex::JCorsair1,
            3 => ZoneIndex::JCorsairOuterll120,
            4 => ZoneIndex::OnBoardLed,
            5 => ZoneIndex::OnBoardLed1,
            6 => ZoneIndex::OnBoardLed2,
            7 => ZoneIndex::OnBoardLed3,
            8 => ZoneIndex::OnBoardLed4,
            9 => ZoneIndex::OnBoardLed5,
            10 => ZoneIndex::OnBoardLed6,
            11 => ZoneIndex::OnBoardLed7,
            12 => ZoneIndex::OnBoardLed8,
            13 => ZoneIndex::OnBoardLed9,
            14 => ZoneIndex::OnBoardLed10,
            _ => ZoneIndex::JRgb2,
        }
    }
}

/// The table of offsets agrees with records laid end to end after the header,
/// and distinct zones sit at distinct slots.
pub proof fn lemma_zone_table(z: ZoneIndex, w: ZoneIndex)
    ensures
        0 <= z.slot_spec() < ZONE_COUNT,
        z.offset_spec() == 1 + ZONE_LEN * z.slot_spec(),
        z.slot_spec() == w.slot_spec() ==> z == w,
{
}

/// `buf` with `bytes` written from position `off` on.
pub open spec fn spliced(buf: Seq<u8>, off: int, bytes: Seq<u8>) -> Seq<u8> {
    Seq::new(
        buf.len(),
        |p: int|
            if off <= p < off + bytes.len() {
                bytes[p - off]
            } else {
                buf[p]
            },
    )
}

/// Writes the record's ten fields at `off`, in wire order.
pub fn write_record(d: &ZoneData, off: usize, buffer: &mut [u8; REPORT_LEN])
    requires
        off + ZONE_LEN <= REPORT_LEN,
    ensures
        final(buffer)@ == spliced(old(buffer)@, off as int, zone_bytes(*d)),
{
    buffer[off] = d.effect;
    buffer[off + 1] = d.color.r;
    buffer[off + 2] = d.color.g;
    buffer[off + 3] = d.color.b;
    buffer[off + 4] = d.speed_and_brightness_flags;
    buffer[off + 5] = d.color2.r;
    buffer[off + 6] = d.color2.g;
    buffer[off + 7] = d.color2.b;
    buffer[off + 8] = d.color_flags;
    buffer[off + 9] = d.padding;
    assert(buffer@ =~= spliced(old(buffer)@, off as int, zone_bytes(*d)));
}

/// Reads the record whose ten bytes start at `off`.
pub fn read_record(buffer: &[u8; REPORT_LEN], off: usize) -> (d: ZoneData)
    requires
        off + ZONE_LEN <= REPORT_LEN,
    ensures
        zone_bytes(d) == buffer@.subrange(off as int, off + ZONE_LEN),
{
    let d = ZoneData {
        effect: buffer[off],
        color: Color::new(buffer[off + 1], buffer[off + 2], buffer[off + 3]),
        speed_and_brightness_flags: buffer[off + 4],
        color2: Color::new(buffer[off + 5], buffer[off + 6], buffer[off + 7]),
        color_flags: buffer[off + 8],
        padding: buffer[off + 9],
    };
    assert(zone_bytes(d) =~= buffer@.subrange(off as int, off + ZONE_LEN));
    d
}

/// The zone records laid end to end, in table order.
pub open spec fn zones_bytes(zones: Seq<ZoneData>) -> Seq<u8>
    decreases zones.len(),
{
    if zones.len() == 0 {
        Seq::empty()
    } else {
        zones_bytes(zones.drop_last()) + zone_bytes(zones.last())
    }
}

/// The whole report: header byte, zone records, trailer byte.
pub open spec fn report_bytes(report_id: u8, zones: Seq<ZoneData>, save_data: u8) -> Seq<u8> {
    seq![report_id] + zones_bytes(zones) + seq![save_data]
}

/// Byte `p` of the zone records belongs to record `p / 10`, field `p % 10`.
pub proof fn lemma_zones_bytes_index(zones: Seq<ZoneData>)
    ensures
        zones_bytes(zones).len() == ZONE_LEN * zones.len(),
        forall|p: int|
            0 <= p < ZONE_LEN * zones.len() ==> #[trigger] zones_bytes(zones)[p] == zone_bytes(
                zones[p / ZONE_LEN as int],
            )[p % ZONE_LEN as int],
    decreases zones.len(),
{
    if zones.len() > 0 {
        let init = zones.drop_last();
        lemma_zones_bytes_index(init);
        let n = init.len();
        assert forall|p: int| 0 <= p < ZONE_LEN * zones.len() implies #[trigger] zones_bytes(
            zones,
        )[p] == zone_bytes(zones[p / ZONE_LEN as int])[p % ZONE_LEN as int] by {
            if p < ZONE_LEN * n {
                assert(zones_bytes(zones)[p] == zones_bytes(init)[p]);
                assert(0 <= p / 10 < n) by (nonlinear_arith)
                    requires
                        0 <= p < 10 * n,
                ;
                assert(zones[p / 10] == init[p / 10]);
            } else {
                assert(p / 10 == n && p % 10 == p - 10 * n) by (nonlinear_arith)
                    requires
                        10 * n <= p < 10 * n + 10,
                ;
            }
        }
    }
}

/// The report buffer of one controller: every zone record, between a report
/// id and a save flag.
pub struct Z390 {
    pub report_id: u8,
    pub zones: [ZoneData; ZONE_COUNT],
    pub save_data: u8,
}

impl Z390 {
    /// The record of one zone.
    pub open spec fn zone(self, z: ZoneIndex) -> ZoneData {
        self.zones@[z.slot_spec()]
    }

    /// The report that carries this buffer to the controller.
    pub open spec fn wire_bytes(self) -> Seq<u8> {
        report_bytes(self.report_id, self.zones@, self.save_data)
    }

    /// A buffer with every zone in its default state and the save flag clear.
    pub fn new() -> (z390: Self)
        ensures
            z390.report_id == REPORT_ID,
            z390.save_data == 0,
            forall|i: int| 0 <= i < ZONE_COUNT ==> z390.zones@[i] == ZoneData::default_spec(),
    {
        let d = ZoneData::new();
        Z390 { report_id: REPORT_ID, zones: [d; 16], save_data: 0 }
    }

    /// Exclusive access to the record of one zone; the rest stays as it was.
    pub fn borrow_zone_data_indexed(&mut self, zone_index: ZoneIndex) -> (zone_data: &mut ZoneData)
        ensures
            *zone_data == old(self).zone(zone_index),
            final(self).zones@ == old(self).zones@.update(zone_index.slot_spec(), *final(zone_data)),
            final(self).report_id == old(self).report_id,
            final(self).save_data == old(self).save_data,
    {
        &mut self.zones[zone_index.slot()]
    }

    /// Replaces the record of one zone.
    pub fn write_zone_data_indexed(&mut self, zone_index: ZoneIndex, zone_data: ZoneData)
        ensures
            final(self).zones@ == old(self).zones@.update(zone_index.slot_spec(), zone_data),
            final(self).report_id == old(self).report_id,
            final(self).save_data == old(self).save_data,
    {
        self.zones[zone_index.slot()] = zone_data;
    }

    /// Replaces the record of every zone.
    pub fn write_zone_data_all(&mut self, zone_data: ZoneData)
        ensures
            forall|i: int| 0 <= i < ZONE_COUNT ==> final(self).zones@[i] == zone_data,
            final(self).report_id == old(self).report_id,
            final(self).save_data == old(self).save_data,
    {
        let mut i: usize = 0;
        while i < ZONE_COUNT
            invariant
                0 <= i <= ZONE_COUNT,
                self.report_id == old(self).report_id,
                self.save_data == old(self).save_data,
                forall|k: int| 0 <= k < i ==> self.zones@[k] == zone_data,
            decreases ZONE_COUNT - i,
        {
            self.zones[i] = zone_data;
            i += 1;
        }
    }

    /// Encodes one zone's record at that zone's offset of `buffer`.
    pub fn write_zone_data(zone_data: &ZoneData, zone_index: ZoneIndex, buffer: &mut [u8; REPORT_LEN])
        ensures
            final(buffer)@ == spliced(old(buffer)@, zone_index.offset_spec(), zone_bytes(*zone_data)),
    {
        write_record(zone_data, zone_index.offset(), buffer);
    }

    /// Decodes one zone's record from that zone's offset of `buffer`.
    pub fn read_zone_data(buffer: &[u8; REPORT_LEN], zone_index: ZoneIndex) -> (zone_data: ZoneData)
        ensures
            zone_bytes(zone_data) == buffer@.subrange(
                zone_index.offset_spec(),
                zone_index.offset_spec() + ZONE_LEN,
            ),
    {
        read_record(buffer, zone_index.offset())
    }

    /// Serializes the whole buffer: report id, each zone in table order, save flag.
    pub fn to_bytes(&self) -> (bytes: [u8; REPORT_LEN])
        ensures
            bytes@ == self.wire_bytes(),
            bytes@.len() == REPORT_LEN,
    {
        let mut buffer: [u8; REPORT_LEN] = [0u8; 162];
        buffer[0] = self.report_id;
        let mut i: usize = 0;
        while i < ZONE_COUNT
            invariant
                0 <= i <= ZONE_COUNT,
                buffer@.len() == REPORT_LEN,
                buffer@[0] == self.report_id,
                forall|p: int|
                    1 <= p < 1 + ZONE_LEN * i ==> #[trigger] buffer@[p] == zone_bytes(
                        self.zones@[(p - 1) / ZONE_LEN as int],
                    )[(p - 1) % ZONE_LEN as int],
            decreases ZONE_COUNT - i,
        {
            let zone_index = ZoneIndex::from_slot(i);
            proof {
                lemma_zone_table(zone_index, zone_index);
            }
            Z390::write_zone_data(&self.zones[i], zone_index, &mut buffer);
            assert forall|p: int| 1 <= p < 1 + ZONE_LEN * (i + 1) implies #[trigger] buffer@[p]
                == zone_bytes(self.zones@[(p - 1) / ZONE_LEN as int])[(p - 1) % ZONE_LEN as int] by {
                if p >= 1 + 10 * i {
                    assert((p - 1) / 10 == i && (p - 1) % 10 == p - (1 + 10 * i)) by (nonlinear_arith)
                        requires
                            1 + 10 * i <= p < 11 + 10 * i,
                    ;
                }
            }
            i += 1;
        }
        buffer[161] = self.save_data;
        proof {
            lemma_zones_bytes_index(self.zones@);
            let w = self.wire_bytes();
            assert forall|p: int| 0 <= p < REPORT_LEN implies #[trigger] buffer@[p] == w[p] by {
                if 1 <= p < 161 {
                    assert(w[p] == zones_bytes(self.zones@)[p - 1]);
                }
            }
            assert(buffer@ =~= w);
        }
        buffer
    }
}

/// The report's fixed layout: report id first, save flag last, and each zone's
/// ten bytes at that zone's offset.
pub proof fn lemma_report_layout(report_id: u8, zones: Seq<ZoneData>, save_data: u8, z: ZoneIndex)
    requires
        zones.len() == ZONE_COUNT,
    ensures
        report_bytes(report_id, zones, save_data).len() == REPORT_LEN,
        report_bytes(report_id, zones, save_data)[0] == report_id,
        report_bytes(report_id, zones, save_data)[REPORT_LEN - 1] == save_data,
        report_bytes(report_id, zones, save_data).subrange(
            z.offset_spec(),
            z.offset_spec() + ZONE_LEN,
        ) == zone_bytes(zones[z.slot_spec()]),
{
    lemma_zones_bytes_index(zones);
    lemma_zone_table(z, z);
    let w = report_bytes(report_id, zones, save_data);
    let o = z.offset_spec();
    let s = z.slot_spec();
    assert forall|j: int| 0 <= j < ZONE_LEN implies #[trigger] w.subrange(o, o + ZONE_LEN)[j]
        == zone_bytes(zones[s])[j] by {
        assert(w[o + j] == zones_bytes(zones)[10 * s + j]);
        assert((10 * s + j) / 10 == s && (10 * s + j) % 10 == j) by (nonlinear_arith)
            requires
                0 <= j < 10,
                0 <= s,
        ;
    }
    assert(w.subrange(o, o + ZONE_LEN) =~= zone_bytes(zones[s]));
}

/// Setting one zone's colour through its record puts the three channels right
/// after that zone's effect byte in the report, and leaves every other zone's
/// bytes as they were.
pub proof fn lemma_color_reaches_report(before: Z390, after: Z390, z: ZoneIndex, c: Color)
    requires
        after.zones@ == before.zones@.update(
            z.slot_spec(),
            (ZoneData { color: c, ..before.zone(z) }),
        ),
        after.report_id == before.report_id,
        after.save_data == before.save_data,
    ensures
        after.wire_bytes().subrange(z.offset_spec() + 1, z.offset_spec() + 4) == seq![c.r, c.g, c.b],
        forall|w: ZoneIndex|
            w != z ==> #[trigger] after.wire_bytes().subrange(
                w.offset_spec(),
                w.offset_spec() + ZONE_LEN,
            ) == before.wire_bytes().subrange(w.offset_spec(), w.offset_spec() + ZONE_LEN),
{
    lemma_report_layout(after.report_id, after.zones@, after.save_data, z);
    let o = z.offset_spec();
    assert(after.wire_bytes().subrange(o + 1, o + 4) =~= after.wire_bytes().subrange(
        o,
        o + ZONE_LEN,
    ).subrange(1, 4));
    assert(after.wire_bytes().subrange(o + 1, o + 4) =~= seq![c.r, c.g, c.b]);
    assert forall|w: ZoneIndex| w != z implies #[trigger] after.wire_bytes().subrange(
        w.offset_spec(),
        w.offset_spec() + ZONE_LEN,
    ) == before.wire_bytes().subrange(w.offset_spec(), w.offset_spec() + ZONE_LEN) by {
        lemma_report_layout(after.report_id, after.zones@, after.save_data, w);
        lemma_report_layout(before.report_id, before.zones@, before.save_data, w);
        lemma_zone_table(w, z);
    }
}

/// Serializing a buffer is deterministic: two serializations with no change
/// in between give byte-identical reports.
pub proof fn lemma_to_bytes_idempotent(first: Z390, second: Z390)
    requires
        first == second,
    ensures
        first.wire_bytes() == second.wire_bytes(),
{
}

} // verus!
