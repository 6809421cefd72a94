use vstd::prelude::*;

use crate::color::{Color, RgbBrightness, RgbDevice, RgbMode, RgbSpeed};
use crate::msi::{pack_spec, pack_speed_brightness, MsiBrightness, MsiMode, MsiSpeed};
use crate::z390::{
    lemma_report_layout, lemma_zone_table, report_bytes, zone_bytes, ZoneData, ZoneIndex, Z390,
    REPORT_LEN, ZONE_COUNT, ZONE_LEN,
};

verus! {

/// One zone of the controller seen as a device of its own.
///
/// The facade caches the last settings it was given and marks itself dirty;
/// the shared buffer takes the cached settings over when it is flushed.
pub struct Z390RgbDevice {
    pub name: String,
    pub zone_index: ZoneIndex,
    pub dirty: bool,
    pub color: Color,
    pub mode: RgbMode,
    pub speed: RgbSpeed,
    pub brightness: RgbBrightness,
}

impl Z390RgbDevice {
    /// A clean facade for `zone_index`: black, static, slow, full brightness.
    pub fn new(name: String, zone_index: ZoneIndex) -> (device: Self)
        ensures
            device.name == name,
            device.zone_index == zone_index,
            !device.dirty,
            device.color == (Color { r: 0, g: 0, b: 0 }),
            device.mode == RgbMode::Static,
            device.speed == RgbSpeed::Slow,
            device.brightness == RgbBrightness::Level100,
    {
        Z390RgbDevice {
            name,
            zone_index,
            dirty: false,
            color: Color::new(0, 0, 0),
            mode: RgbMode::Static,
            speed: RgbSpeed::Slow,
            brightness: RgbBrightness::Level100,
        }
    }

    /// The zone record that the cached settings ask for, on top of `base`:
    /// effect, both colours and the packed speed/brightness come from the
    /// cache, the flags and the padding from `base`.
    pub open spec fn record_spec(self, base: ZoneData) -> ZoneData {
        ZoneData {
            effect: MsiMode::from_rgb_spec(self.mode).code_spec(),
            color: self.color,
            speed_and_brightness_flags: pack_spec(
                MsiSpeed::from_rgb_spec(self.speed).code_spec(),
                MsiBrightness::from_rgb_spec(self.brightness).code_spec(),
            ),
            color2: self.color,
            ..base
        }
    }

    pub fn record(&self, base: &ZoneData) -> (zone_data: ZoneData)
        ensures
            zone_data == self.record_spec(*base),
    {
        let effect = MsiMode::from_rgb(self.mode).code();
        let speed = MsiSpeed::from_rgb(self.speed).code();
        let brightness = MsiBrightness::from_rgb(self.brightness).code();
        ZoneData {
            effect,
            color: self.color,
            speed_and_brightness_flags: pack_speed_brightness(speed, brightness),
            color2: self.color,
            color_flags: base.color_flags,
            padding: base.padding,
        }
    }
}

impl RgbDevice for Z390RgbDevice {
    open spec fn color_view(&self) -> Color {
        self.color
    }

    open spec fn name_view(&self) -> Seq<char> {
        self.name@
    }

    fn set_color(&mut self, color: Color)
        ensures
            *final(self) == (Z390RgbDevice { color, dirty: true, ..*old(self) }),
    {
        self.dirty = true;
        self.color = color;
    }

    fn set_mode(&mut self, mode: RgbMode)
        ensures
            *final(self) == (Z390RgbDevice { mode, dirty: true, ..*old(self) }),
    {
        self.dirty = true;
        self.mode = mode;
    }

    fn set_speed(&mut self, speed: RgbSpeed)
        ensures
            *final(self) == (Z390RgbDevice { speed, dirty: true, ..*old(self) }),
    {
        self.dirty = true;
        self.speed = speed;
    }

    fn set_brightness(&mut self, brightness: RgbBrightness)
        ensures
            *final(self) == (Z390RgbDevice { brightness, dirty: true, ..*old(self) }),
    {
        self.dirty = true;
        self.brightness = brightness;
    }

    fn get_name(&self) -> (name: &String) {
        &self.name
    }

    /// Answers whether the facade holds changes not yet handed over, and
    /// marks them handed over.
    fn display(&mut self) -> (transmit: bool)
        ensures
            transmit == old(self).dirty,
            *final(self) == (Z390RgbDevice { dirty: false, ..*old(self) }),
    {
        let transmit = self.dirty;
        self.dirty = false;
        transmit
    }
}

/// The zone records after the dirty facades among `devices`, taken in order,
/// wrote their cached settings into them.
pub open spec fn settle(zones: Seq<ZoneData>, devices: Seq<Z390RgbDevice>) -> Seq<ZoneData>
    decreases devices.len(),
{
    if devices.len() == 0 {
        zones
    } else {
        let before = settle(zones, devices.drop_last());
        let d = devices.last();
        if d.dirty {
            before.update(d.zone_index.slot_spec(), d.record_spec(before[d.zone_index.slot_spec()]))
        } else {
            before
        }
    }
}

/// Whether some facade holds changes not yet handed over.
pub open spec fn any_dirty(devices: Seq<Z390RgbDevice>) -> bool {
    exists|i: int| 0 <= i < devices.len() && (#[trigger] devices[i]).dirty
}

/// The facade once its changes were handed over.
pub open spec fn handed_over(d: Z390RgbDevice) -> Z390RgbDevice {
    Z390RgbDevice { dirty: false, ..d }
}

impl Z390 {
    /// Flushes every facade of this controller at once: each dirty facade
    /// writes its cached settings into its zone's record and is marked clean,
    /// and if any was dirty, the one report that carries all of them is
    /// returned for transmission.
    pub fn flush(&mut self, devices: &mut Vec<Z390RgbDevice>) -> (report: Option<[u8; REPORT_LEN]>)
        ensures
            final(self).zones@ == settle(old(self).zones@, old(devices)@),
            final(self).report_id == old(self).report_id,
            final(self).save_data == old(self).save_data,
            final(devices)@.len() == old(devices)@.len(),
            forall|i: int|
                0 <= i < old(devices)@.len() ==> #[trigger] final(devices)@[i] == handed_over(
                    old(devices)@[i],
                ),
            report is Some <==> any_dirty(old(devices)@),
            report matches Some(bytes) ==> bytes@ == final(self).wire_bytes(),
    {
        let ghost start = devices@;
        let mut due = false;
        let mut i: usize = 0;
        while i < devices.len()
            invariant
                0 <= i <= devices@.len(),
                devices@.len() == start.len(),
                start == old(devices)@,
                self.zones@ == settle(old(self).zones@, start.take(i as int)),
                self.report_id == old(self).report_id,
                self.save_data == old(self).save_data,
                forall|k: int| 0 <= k < i ==> #[trigger] devices@[k] == handed_over(start[k]),
                forall|k: int| i <= k < devices@.len() ==> #[trigger] devices@[k] == start[k],
                due <==> any_dirty(start.take(i as int)),
            decreases devices@.len() - i,
        {
            let device = &mut devices[i];
            let dirty = device.display();
            if dirty {
                let slot = device.zone_index.slot();
                let zone_data = device.record(&self.zones[slot]);
                self.zones[slot] = zone_data;
                due = true;
            }
            proof {
                assert(start.take(i + 1).drop_last() =~= start.take(i as int));
                if any_dirty(start.take(i as int)) {
                    let k = choose|k: int| 0 <= k < i && (#[trigger] start.take(i as int)[k]).dirty;
                    assert(start.take(i + 1)[k].dirty);
                }
                if any_dirty(start.take(i + 1)) {
                    let k = choose|k: int| 0 <= k < i + 1 && (#[trigger] start.take(i + 1)[k]).dirty;
                    if k < i {
                        assert(start.take(i as int)[k].dirty);
                    }
                }
            }
            i += 1;
        }
        assert(start.take(start.len() as int) =~= start);
        if due {
            Some(self.to_bytes())
        } else {
            None
        }
    }
}

/// One facade for each zone of the controller, in table order, all clean.
pub fn get_z390_rgb_devices() -> (devices: Vec<Z390RgbDevice>)
    ensures
        devices@.len() == ZONE_COUNT,
        forall|i: int|
            0 <= i < ZONE_COUNT ==> {
                let d = #[trigger] devices@[i];
                &&& d.zone_index.slot_spec() == i
                &&& d.name@ == d.zone_index.name_spec()
                &&& !d.dirty
                &&& d.color == (Color { r: 0, g: 0, b: 0 })
                &&& d.mode == RgbMode::Static
                &&& d.speed == RgbSpeed::Slow
                &&& d.brightness == RgbBrightness::Level100
            },
{
    let mut devices: Vec<Z390RgbDevice> = Vec::new();
    let mut i: usize = 0;
    while i < ZONE_COUNT
        invariant
            0 <= i <= ZONE_COUNT,
            devices@.len() == i,
            forall|k: int|
                0 <= k < i ==> {
                    let d = #[trigger] devices@[k];
                    &&& d.zone_index.slot_spec() == k
                    &&& d.name@ == d.zone_index.name_spec()
                    &&& !d.dirty
                    &&& d.color == (Color { r: 0, g: 0, b: 0 })
                    &&& d.mode == RgbMode::Static
                    &&& d.speed == RgbSpeed::Slow
                    &&& d.brightness == RgbBrightness::Level100
                },
        decreases ZONE_COUNT - i,
    {
        let zone_index = ZoneIndex::from_slot(i);
        devices.push(Z390RgbDevice::new(zone_index.name().to_owned(), zone_index));
        i += 1;
    }
    devices
}

/// Two facades that changed different zones of one buffer, flushed together:
/// exactly one report goes out, and it carries the new state of both zones.
pub proof fn lemma_one_report_carries_both(board: Z390, a: Z390RgbDevice, b: Z390RgbDevice)
    requires
        a.dirty,
        b.dirty,
        a.zone_index != b.zone_index,
    ensures
        any_dirty(seq![a, b]),
        ({
            let wire = report_bytes(
                board.report_id,
                settle(board.zones@, seq![a, b]),
                board.save_data,
            );
            &&& wire.subrange(a.zone_index.offset_spec(), a.zone_index.offset_spec() + ZONE_LEN)
                == zone_bytes(a.record_spec(board.zone(a.zone_index)))
            &&& wire.subrange(b.zone_index.offset_spec(), b.zone_index.offset_spec() + ZONE_LEN)
                == zone_bytes(b.record_spec(board.zone(b.zone_index)))
        }),
{
    let devices = seq![a, b];
    assert(devices[0].dirty);
    assert(devices.drop_last() =~= seq![a]);
    assert(seq![a].drop_last() =~= Seq::<Z390RgbDevice>::empty());
    lemma_zone_table(a.zone_index, b.zone_index);
    lemma_zone_table(b.zone_index, a.zone_index);
    let sa = a.zone_index.slot_spec();
    let sb = b.zone_index.slot_spec();
    assert(settle(board.zones@, Seq::<Z390RgbDevice>::empty()) == board.zones@);
    let first = settle(board.zones@, seq![a]);
    assert(first == board.zones@.update(sa, a.record_spec(board.zones@[sa])));
    let zones = settle(board.zones@, devices);
    assert(zones == first.update(sb, b.record_spec(first[sb])));
    lemma_report_layout(board.report_id, zones, board.save_data, a.zone_index);
    lemma_report_layout(board.report_id, zones, board.save_data, b.zone_index);
}

} // verus!
