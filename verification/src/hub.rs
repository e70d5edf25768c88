//! Multi-HVAC, multi-sensor home state of the climate hub, and the rules
//! that change it: dashboard commands, unit and sensor registration, the
//! smart multi-zone orchestrator and telemetry snapshots.
//!
//! Temperatures, humidity, power and energy are held in tenths of their
//! unit (°C, %, W, kWh): `22.5 °C` is `225`.

use vstd::prelude::*;

verus! {

pub struct HvacUnit {
    pub id: String,
    pub name: String,
    pub model: String,
    pub assigned_sensor_id: Option<String>,
    pub power: String,
    pub mode: String,
    pub target_temperature: i32,
    pub room_temperature: i32,
    pub outside_temperature: Option<i32>,
    pub fan_speed: String,
    pub vane: String,
    pub operating: bool,
    pub compressor_frequency: u8,
    pub input_power_watts: i32,
    pub energy_kwh: i32,
    pub is_remote_temp_active: bool,
    pub connected: bool,
}

pub struct SensorNode {
    pub id: String,
    pub name: String,
    pub room_zone: String,
    pub temperature: i32,
    pub humidity: i32,
    pub presence: bool,
    pub motion_energy: u8,
    pub battery: Option<u8>,
    pub rssi: i32,
    pub last_seen_secs: u64,
}

pub struct HomeState {
    pub selected_hvac_id: String,
    /// One of "auto_comfort", "sleep", "eco", "away", "manual".
    pub global_mode: String,
    pub hvacs: Vec<HvacUnit>,
    pub sensors: Vec<SensorNode>,
}

/// An HVAC unit with its strings as character sequences.
pub struct HvacUnitView {
    pub id: Seq<char>,
    pub name: Seq<char>,
    pub model: Seq<char>,
    pub assigned_sensor_id: Option<Seq<char>>,
    pub power: Seq<char>,
    pub mode: Seq<char>,
    pub target_temperature: i32,
    pub room_temperature: i32,
    pub outside_temperature: Option<i32>,
    pub fan_speed: Seq<char>,
    pub vane: Seq<char>,
    pub operating: bool,
    pub compressor_frequency: u8,
    pub input_power_watts: i32,
    pub energy_kwh: i32,
    pub is_remote_temp_active: bool,
    pub connected: bool,
}

pub struct SensorNodeView {
    pub id: Seq<char>,
    pub name: Seq<char>,
    pub room_zone: Seq<char>,
    pub temperature: i32,
    pub humidity: i32,
    pub presence: bool,
    pub motion_energy: u8,
    pub battery: Option<u8>,
    pub rssi: i32,
    pub last_seen_secs: u64,
}

pub struct HomeView {
    pub selected_hvac_id: Seq<char>,
    pub global_mode: Seq<char>,
    pub hvacs: Seq<HvacUnitView>,
    pub sensors: Seq<SensorNodeView>,
}

pub open spec fn opt_str_view(s: Option<String>) -> Option<Seq<char>> {
    match s {
        Some(t) => Some(t@),
        None => None,
    }
}

impl View for HvacUnit {
    type V = HvacUnitView;

    open spec fn view(&self) -> HvacUnitView {
        HvacUnitView {
            id: self.id@,
            name: self.name@,
            model: self.model@,
            assigned_sensor_id: opt_str_view(self.assigned_sensor_id),
            power: self.power@,
            mode: self.mode@,
            target_temperature: self.target_temperature,
            room_temperature: self.room_temperature,
            outside_temperature: self.outside_temperature,
            fan_speed: self.fan_speed@,
            vane: self.vane@,
            operating: self.operating,
            compressor_frequency: self.compressor_frequency,
            input_power_watts: self.input_power_watts,
            energy_kwh: self.energy_kwh,
            is_remote_temp_active: self.is_remote_temp_active,
            connected: self.connected,
        }
    }
}

impl View for SensorNode {
    type V = SensorNodeView;

    open spec fn view(&self) -> SensorNodeView {
        SensorNodeView {
            id: self.id@,
            name: self.name@,
            room_zone: self.room_zone@,
            temperature: self.temperature,
            humidity: self.humidity,
            presence: self.presence,
            motion_energy: self.motion_energy,
            battery: self.battery,
            rssi: self.rssi,
            last_seen_secs: self.last_seen_secs,
        }
    }
}

pub open spec fn units_view(v: Seq<HvacUnit>) -> Seq<HvacUnitView> {
    v.map_values(|u: HvacUnit| u@)
}

pub open spec fn sensors_view(v: Seq<SensorNode>) -> Seq<SensorNodeView> {
    v.map_values(|s: SensorNode| s@)
}

impl View for HomeState {
    type V = HomeView;

    open spec fn view(&self) -> HomeView {
        HomeView {
            selected_hvac_id: self.selected_hvac_id@,
            global_mode: self.global_mode@,
            hvacs: units_view(self.hvacs@),
            sensors: sensors_view(self.sensors@),
        }
    }
}

fn text(s: &str) -> (r: String)
    ensures
        r@ == s@,
{
    s.to_owned()
}

fn opt_string_copy(s: &Option<String>) -> (r: Option<String>)
    ensures
        opt_str_view(r) == opt_str_view(*s),
{
    match s {
        Some(t) => Some(t.clone()),
        None => None,
    }
}

} // verus!

verus! {

pub open spec fn default_living_room_unit() -> HvacUnitView {
    HvacUnitView {
        id: "ac_living_room"@,
        name: "Salon Kliması"@,
        model: "Mitsubishi MSZ-AP35VGK"@,
        assigned_sensor_id: Some("sensor_living_room"@),
        power: "On"@,
        mode: "Heat"@,
        target_temperature: 220,
        room_temperature: 231,
        outside_temperature: Some(154),
        fan_speed: "Auto"@,
        vane: "Auto"@,
        operating: true,
        compressor_frequency: 32,
        input_power_watts: 4100,
        energy_kwh: 31,
        is_remote_temp_active: true,
        connected: true,
    }
}

pub open spec fn default_bedroom_unit() -> HvacUnitView {
    HvacUnitView {
        id: "ac_bedroom"@,
        name: "Yatak Odası Kliması"@,
        model: "Mitsubishi MSZ-AP25VGK"@,
        assigned_sensor_id: Some("sensor_bedroom"@),
        power: "Off"@,
        mode: "Heat"@,
        target_temperature: 210,
        room_temperature: 208,
        outside_temperature: Some(154),
        fan_speed: "Quiet"@,
        vane: "Center"@,
        operating: false,
        compressor_frequency: 0,
        input_power_watts: 0,
        energy_kwh: 12,
        is_remote_temp_active: true,
        connected: true,
    }
}

pub open spec fn sensor_view(
    id: Seq<char>,
    name: Seq<char>,
    room_zone: Seq<char>,
    temperature: i32,
    humidity: i32,
    presence: bool,
    motion_energy: u8,
    battery: Option<u8>,
    rssi: i32,
    last_seen_secs: u64,
) -> SensorNodeView {
    SensorNodeView {
        id,
        name,
        room_zone,
        temperature,
        humidity,
        presence,
        motion_energy,
        battery,
        rssi,
        last_seen_secs,
    }
}

/// The demo home the hub starts with: two units, living room (on, heating)
/// and bedroom (off), each bound to its room's sensor, and four sensors,
/// with presence in the living room and the office.
pub open spec fn default_home() -> HomeView {
    HomeView {
        selected_hvac_id: "ac_living_room"@,
        global_mode: "auto_comfort"@,
        hvacs: seq![default_living_room_unit(), default_bedroom_unit()],
        sensors: seq![
            sensor_view("sensor_living_room"@, "Salon Sensörü"@, "Salon"@, 231, 470, true, 78, None, -54i32, 2),
            sensor_view("sensor_bedroom"@, "Yatak Odası Sensörü"@, "Yatak Odası"@, 208, 515, false, 0, Some(92u8), -62i32, 4),
            sensor_view("sensor_office"@, "Çalışma Odası Sensörü"@, "Çalışma Odası"@, 224, 458, true, 65, Some(88u8), -58i32, 1),
            sensor_view("sensor_kids"@, "Çocuk Odası Sensörü"@, "Çocuk Odası"@, 228, 490, false, 0, Some(95u8), -67i32, 6),
        ],
    }
}

fn sensor(
    id: &str,
    name: &str,
    room_zone: &str,
    temperature: i32,
    humidity: i32,
    presence: bool,
    motion_energy: u8,
    battery: Option<u8>,
    rssi: i32,
    last_seen_secs: u64,
) -> (s: SensorNode)
    ensures
        s@ == sensor_view(
            id@,
            name@,
            room_zone@,
            temperature,
            humidity,
            presence,
            motion_energy,
            battery,
            rssi,
            last_seen_secs,
        ),
{
    SensorNode {
        id: text(id),
        name: text(name),
        room_zone: text(room_zone),
        temperature,
        humidity,
        presence,
        motion_energy,
        battery,
        rssi,
        last_seen_secs,
    }
}

impl Default for HomeState {
    fn default() -> (h: HomeState)
        ensures
            h@ == default_home(),
    {
        let living = HvacUnit {
            id: text("ac_living_room"),
            name: text("Salon Kliması"),
            model: text("Mitsubishi MSZ-AP35VGK"),
            assigned_sensor_id: Some(text("sensor_living_room")),
            power: text("On"),
            mode: text("Heat"),
            target_temperature: 220,
            room_temperature: 231,
            outside_temperature: Some(154),
            fan_speed: text("Auto"),
            vane: text("Auto"),
            operating: true,
            compressor_frequency: 32,
            input_power_watts: 4100,
            energy_kwh: 31,
            is_remote_temp_active: true,
            connected: true,
        };
        let bedroom = HvacUnit {
            id: text("ac_bedroom"),
            name: text("Yatak Odası Kliması"),
            model: text("Mitsubishi MSZ-AP25VGK"),
            assigned_sensor_id: Some(text("sensor_bedroom")),
            power: text("Off"),
            mode: text("Heat"),
            target_temperature: 210,
            room_temperature: 208,
            outside_temperature: Some(154),
            fan_speed: text("Quiet"),
            vane: text("Center"),
            operating: false,
            compressor_frequency: 0,
            input_power_watts: 0,
            energy_kwh: 12,
            is_remote_temp_active: true,
            connected: true,
        };
        let mut hvacs: Vec<HvacUnit> = Vec::new();
        hvacs.push(living);
        hvacs.push(bedroom);
        let mut sensors: Vec<SensorNode> = Vec::new();
        // The living room sensor is mains powered: no battery.
        sensors.push(sensor("sensor_living_room", "Salon Sensörü", "Salon", 231, 470, true, 78, None, -54, 2));
        sensors.push(sensor("sensor_bedroom", "Yatak Odası Sensörü", "Yatak Odası", 208, 515, false, 0, Some(92), -62, 4));
        sensors.push(sensor("sensor_office", "Çalışma Odası Sensörü", "Çalışma Odası", 224, 458, true, 65, Some(88), -58, 1));
        sensors.push(sensor("sensor_kids", "Çocuk Odası Sensörü", "Çocuk Odası", 228, 490, false, 0, Some(95), -67, 6));
        let h = HomeState {
            selected_hvac_id: text("ac_living_room"),
            global_mode: text("auto_comfort"),
            hvacs,
            sensors,
        };
        assert(h@.hvacs =~= default_home().hvacs);
        assert(h@.sensors =~= default_home().sensors);
        h
    }
}

} // verus!

verus! {

/// Registration request for a new HVAC unit.
pub struct NewHvacPayload {
    pub id: String,
    pub name: String,
    pub model: Option<String>,
    pub assigned_sensor_id: Option<String>,
}

/// Registration request for a new sensor node; readings in tenths.
pub struct NewSensorPayload {
    pub id: String,
    pub name: String,
    pub room_zone: String,
    pub initial_temp: Option<i32>,
    pub initial_humidity: Option<i32>,
}

/// A newly registered unit: off, heating, 22.0 °C target, 21.5 °C room,
/// 15.4 °C outside, automatic fan and vane, idle, connected, with a remote
/// temperature; the model defaults to "Mitsubishi Electric CN105".
pub open spec fn new_unit_view(p: NewHvacPayload) -> HvacUnitView {
    HvacUnitView {
        id: p.id@,
        name: p.name@,
        model: match p.model {
            Some(m) => m@,
            None => "Mitsubishi Electric CN105"@,
        },
        assigned_sensor_id: opt_str_view(p.assigned_sensor_id),
        power: "Off"@,
        mode: "Heat"@,
        target_temperature: 220,
        room_temperature: 215,
        outside_temperature: Some(154),
        fan_speed: "Auto"@,
        vane: "Auto"@,
        operating: false,
        compressor_frequency: 0,
        input_power_watts: 0,
        energy_kwh: 0,
        is_remote_temp_active: true,
        connected: true,
    }
}

/// A newly registered sensor: 21.0 °C and 50.0 % unless given, no
/// presence, full battery, -55 dBm, just seen.
pub open spec fn new_sensor_view(p: NewSensorPayload) -> SensorNodeView {
    SensorNodeView {
        id: p.id@,
        name: p.name@,
        room_zone: p.room_zone@,
        temperature: match p.initial_temp {
            Some(t) => t,
            None => 210,
        },
        humidity: match p.initial_humidity {
            Some(h) => h,
            None => 500,
        },
        presence: false,
        motion_energy: 0,
        battery: Some(100u8),
        rssi: -55i32,
        last_seen_secs: 0,
    }
}

pub open spec fn keeps_unit(id: Seq<char>) -> spec_fn(HvacUnitView) -> bool {
    |u: HvacUnitView| u.id != id
}

pub open spec fn keeps_sensor(id: Seq<char>) -> spec_fn(SensorNodeView) -> bool {
    |s: SensorNodeView| s.id != id
}

/// The home after unit `id` is deleted: every unit with that id goes, and
/// if it was the selected one, the first remaining unit (if any) becomes
/// selected.
pub open spec fn after_delete_hvac(h: HomeView, id: Seq<char>) -> HomeView {
    let kept = h.hvacs.filter(keeps_unit(id));
    HomeView {
        hvacs: kept,
        selected_hvac_id: if h.selected_hvac_id == id && kept.len() > 0 {
            kept[0].id
        } else {
            h.selected_hvac_id
        },
        ..h
    }
}

/// A unit no longer bound to sensor `id`.
pub open spec fn unassigned_from(u: HvacUnitView, id: Seq<char>) -> HvacUnitView {
    if u.assigned_sensor_id == Some(id) {
        HvacUnitView { assigned_sensor_id: None, ..u }
    } else {
        u
    }
}

/// The home after sensor `id` is deleted: every sensor with that id goes
/// and no unit stays bound to it.
pub open spec fn after_delete_sensor(h: HomeView, id: Seq<char>) -> HomeView {
    HomeView {
        sensors: h.sensors.filter(keeps_sensor(id)),
        hvacs: h.hvacs.map_values(|u: HvacUnitView| unassigned_from(u, id)),
        ..h
    }
}

impl HomeState {
    /// Adds a unit; returns its id.
    pub fn register_hvac(&mut self, payload: NewHvacPayload) -> (id: String)
        ensures
            final(self)@ == (HomeView {
                hvacs: old(self)@.hvacs.push(new_unit_view(payload)),
                ..old(self)@
            }),
            id@ == payload.id@,
    {
        let id = payload.id.clone();
        let model = match payload.model {
            Some(m) => m,
            None => text("Mitsubishi Electric CN105"),
        };
        let unit = HvacUnit {
            id: payload.id,
            name: payload.name,
            model,
            assigned_sensor_id: payload.assigned_sensor_id,
            power: text("Off"),
            mode: text("Heat"),
            target_temperature: 220,
            room_temperature: 215,
            outside_temperature: Some(154),
            fan_speed: text("Auto"),
            vane: text("Auto"),
            operating: false,
            compressor_frequency: 0,
            input_power_watts: 0,
            energy_kwh: 0,
            is_remote_temp_active: true,
            connected: true,
        };
        self.hvacs.push(unit);
        assert(units_view(self.hvacs@) =~= units_view(old(self).hvacs@).push(new_unit_view(payload)));
        id
    }

    /// Adds a sensor node; returns its id.
    pub fn register_sensor(&mut self, payload: NewSensorPayload) -> (id: String)
        ensures
            final(self)@ == (HomeView {
                sensors: old(self)@.sensors.push(new_sensor_view(payload)),
                ..old(self)@
            }),
            id@ == payload.id@,
    {
        let id = payload.id.clone();
        let node = SensorNode {
            id: payload.id,
            name: payload.name,
            room_zone: payload.room_zone,
            temperature: match payload.initial_temp {
                Some(t) => t,
                None => 210,
            },
            humidity: match payload.initial_humidity {
                Some(h) => h,
                None => 500,
            },
            presence: false,
            motion_energy: 0,
            battery: Some(100),
            rssi: -55,
            last_seen_secs: 0,
        };
        self.sensors.push(node);
        assert(sensors_view(self.sensors@) =~= sensors_view(old(self).sensors@).push(
            new_sensor_view(payload),
        ));
        id
    }

    /// Removes every unit with id `id`; a deleted selection moves to the
    /// first remaining unit.
    pub fn delete_hvac(&mut self, id: &String)
        ensures
            final(self)@ == after_delete_hvac(old(self)@, id@),
    {
        let ghost o = units_view(self.hvacs@);
        let mut rest: Vec<HvacUnit> = Vec::new();
        core::mem::swap(&mut rest, &mut self.hvacs);
        assert(o.take(0) =~= Seq::<HvacUnitView>::empty());
        proof {
            reveal(Seq::filter);
            assert(o.skip(0) =~= o);
        }
        while rest.len() > 0
            invariant
                0 <= o.len() - rest@.len() <= o.len(),
                units_view(self.hvacs@) == o.take(o.len() - rest@.len()).filter(keeps_unit(id@)),
                units_view(rest@) == o.skip(o.len() - rest@.len()),
                self.selected_hvac_id == old(self).selected_hvac_id,
                self.global_mode == old(self).global_mode,
                self.sensors == old(self).sensors,
            decreases rest@.len(),
        {
            let ghost k = o.len() - rest@.len();
            let ghost before = self.hvacs@;
            assert(units_view(rest@)[0] == o[k]);
            let ghost rb = rest@;
            let u = rest.remove(0);
            proof {
                reveal(Seq::filter);
                assert(o.take(k + 1).drop_last() =~= o.take(k));
                assert forall|j: int| 0 <= j < units_view(rest@).len() implies #[trigger] units_view(rest@)[j]
                    == o.skip(k + 1)[j] by {
                    assert(rest@[j] == rb[j + 1]);
                    assert(units_view(rb)[j + 1] == o.skip(k)[j + 1]);
                }
                assert(units_view(rest@) =~= o.skip(k + 1));
            }
            if u.id != *id {
                self.hvacs.push(u);
                assert(units_view(self.hvacs@) =~= units_view(before).push(o[k]));
            }
        }
        assert(o.take(o.len() as int) =~= o);
        if self.selected_hvac_id == *id && self.hvacs.len() > 0 {
            self.selected_hvac_id = self.hvacs[0].id.clone();
        }
    }

    /// Removes every sensor with id `id` and unbinds the units bound to it.
    pub fn delete_sensor(&mut self, id: &String)
        ensures
            final(self)@ == after_delete_sensor(old(self)@, id@),
    {
        let ghost o = sensors_view(self.sensors@);
        let mut rest: Vec<SensorNode> = Vec::new();
        core::mem::swap(&mut rest, &mut self.sensors);
        assert(o.take(0) =~= Seq::<SensorNodeView>::empty());
        proof {
            reveal(Seq::filter);
            assert(o.skip(0) =~= o);
        }
        while rest.len() > 0
            invariant
                0 <= o.len() - rest@.len() <= o.len(),
                sensors_view(self.sensors@) == o.take(o.len() - rest@.len()).filter(
                    keeps_sensor(id@),
                ),
                sensors_view(rest@) == o.skip(o.len() - rest@.len()),
                self.selected_hvac_id == old(self).selected_hvac_id,
                self.global_mode == old(self).global_mode,
                self.hvacs == old(self).hvacs,
            decreases rest@.len(),
        {
            let ghost k = o.len() - rest@.len();
            let ghost before = self.sensors@;
            assert(sensors_view(rest@)[0] == o[k]);
            let ghost rb = rest@;
            let s = rest.remove(0);
            proof {
                reveal(Seq::filter);
                assert(o.take(k + 1).drop_last() =~= o.take(k));
                assert forall|j: int| 0 <= j < sensors_view(rest@).len() implies #[trigger] sensors_view(rest@)[j]
                    == o.skip(k + 1)[j] by {
                    assert(rest@[j] == rb[j + 1]);
                    assert(sensors_view(rb)[j + 1] == o.skip(k)[j + 1]);
                }
                assert(sensors_view(rest@) =~= o.skip(k + 1));
            }
            if s.id != *id {
                self.sensors.push(s);
                assert(sensors_view(self.sensors@) =~= sensors_view(before).push(o[k]));
            }
        }
        assert(o.take(o.len() as int) =~= o);
        let ghost hv = units_view(self.hvacs@);
        let mut i: usize = 0;
        while i < self.hvacs.len()
            invariant
                i <= self.hvacs@.len(),
                self.hvacs@.len() == hv.len(),
                forall|j: int|
                    0 <= j < hv.len() ==> #[trigger] units_view(self.hvacs@)[j] == if j < i {
                        unassigned_from(hv[j], id@)
                    } else {
                        hv[j]
                    },
                sensors_view(self.sensors@) == o.filter(keeps_sensor(id@)),
                self.selected_hvac_id == old(self).selected_hvac_id,
                self.global_mode == old(self).global_mode,
            decreases hv.len() - i,
        {
            let ghost before = self.hvacs@;
            let bound = match &self.hvacs[i].assigned_sensor_id {
                Some(a) => *a == *id,
                None => false,
            };
            assert(bound == (before[i as int]@.assigned_sensor_id == Some(id@)));
            assert(units_view(before)[i as int] == hv[i as int]);
            if bound {
                self.hvacs[i].assigned_sensor_id = None;
                assert(self.hvacs@[i as int]@ == unassigned_from(hv[i as int], id@));
            }
            assert forall|j: int| 0 <= j < hv.len() && j != i implies self.hvacs@[j] == before[j] by {}
            i = i + 1;
        }
        assert(units_view(self.hvacs@) =~= hv.map_values(|u: HvacUnitView| unassigned_from(u, id@)));
    }
}

} // verus!

verus! {

/// The first index at or after `from` whose element satisfies `p`.
pub open spec fn first_index_from<A>(s: Seq<A>, p: spec_fn(A) -> bool, from: nat) -> Option<int>
    decreases s.len() - from,
{
    if from >= s.len() {
        None
    } else if p(s[from as int]) {
        Some(from as int)
    } else {
        first_index_from(s, p, from + 1)
    }
}

/// The first index of `s` whose element satisfies `p`.
pub open spec fn first_index<A>(s: Seq<A>, p: spec_fn(A) -> bool) -> Option<int> {
    first_index_from(s, p, 0)
}

/// What `first_index_from` finds: the least index from `from` on whose
/// element satisfies `p`, or `None` when there is none.
pub proof fn lemma_first_index_from<A>(s: Seq<A>, p: spec_fn(A) -> bool, from: nat)
    ensures
        match first_index_from(s, p, from) {
            Some(i) => from <= i < s.len() && p(s[i]) && forall|j: int|
                from <= j < i ==> !p(#[trigger] s[j]),
            None => forall|j: int| from <= j < s.len() ==> !p(#[trigger] s[j]),
        },
    decreases s.len() - from,
{
    if from < s.len() && !p(s[from as int]) {
        lemma_first_index_from(s, p, from + 1);
    }
}

pub open spec fn has_unit_id(id: Seq<char>) -> spec_fn(HvacUnitView) -> bool {
    |u: HvacUnitView| u.id == id
}

pub open spec fn has_sensor_id(id: Seq<char>) -> spec_fn(SensorNodeView) -> bool {
    |s: SensorNodeView| s.id == id
}

pub open spec fn senses_presence() -> spec_fn(SensorNodeView) -> bool {
    |s: SensorNodeView| s.presence
}

/// Index of the first unit with id `id`.
fn find_unit(hvacs: &Vec<HvacUnit>, id: &String) -> (r: Option<usize>)
    ensures
        r matches Some(i) ==> first_index(units_view(hvacs@), has_unit_id(id@)) == Some(i as int),
        r is None ==> first_index(units_view(hvacs@), has_unit_id(id@)) is None,
        r matches Some(i) ==> i < hvacs@.len(),
{
    proof {
        lemma_first_index_from(units_view(hvacs@), has_unit_id(id@), 0);
    }
    let ghost s = units_view(hvacs@);
    let mut i: usize = 0;
    while i < hvacs.len()
        invariant
            i <= hvacs@.len(),
            s == units_view(hvacs@),
            first_index(s, has_unit_id(id@)) == first_index_from(s, has_unit_id(id@), i as nat),
        decreases hvacs@.len() - i,
    {
        assert(s[i as int] == hvacs@[i as int]@);
        if hvacs[i].id == *id {
            return Some(i);
        }
        i = i + 1;
    }
    None
}

/// Index of the first sensor with id `id`.
fn find_sensor(sensors: &Vec<SensorNode>, id: &String) -> (r: Option<usize>)
    ensures
        r matches Some(i) ==> first_index(sensors_view(sensors@), has_sensor_id(id@)) == Some(i as int),
        r is None ==> first_index(sensors_view(sensors@), has_sensor_id(id@)) is None,
        r matches Some(i) ==> i < sensors@.len(),
{
    proof {
        lemma_first_index_from(sensors_view(sensors@), has_sensor_id(id@), 0);
    }
    let ghost s = sensors_view(sensors@);
    let mut i: usize = 0;
    while i < sensors.len()
        invariant
            i <= sensors@.len(),
            s == sensors_view(sensors@),
            first_index(s, has_sensor_id(id@)) == first_index_from(s, has_sensor_id(id@), i as nat),
        decreases sensors@.len() - i,
    {
        assert(s[i as int] == sensors@[i as int]@);
        if sensors[i].id == *id {
            return Some(i);
        }
        i = i + 1;
    }
    None
}

/// Index of the first sensor that detects presence.
fn find_present_sensor(sensors: &Vec<SensorNode>) -> (r: Option<usize>)
    ensures
        r matches Some(i) ==> first_index(sensors_view(sensors@), senses_presence()) == Some(i as int),
        r is None ==> first_index(sensors_view(sensors@), senses_presence()) is None,
        r matches Some(i) ==> i < sensors@.len(),
{
    proof {
        lemma_first_index_from(sensors_view(sensors@), senses_presence(), 0);
    }
    let ghost s = sensors_view(sensors@);
    let mut i: usize = 0;
    while i < sensors.len()
        invariant
            i <= sensors@.len(),
            s == sensors_view(sensors@),
            first_index(s, senses_presence()) == first_index_from(s, senses_presence(), i as nat),
        decreases sensors@.len() - i,
    {
        assert(s[i as int] == sensors@[i as int]@);
        if sensors[i].presence {
            return Some(i);
        }
        i = i + 1;
    }
    None
}

} // verus!

verus! {

/// A dashboard control command; the temperature is in tenths of °C.
pub struct ControlCommand {
    pub action: String,
    pub hvac_id: Option<String>,
    pub power: Option<String>,
    pub mode: Option<String>,
    pub temperature: Option<i32>,
    pub fan: Option<String>,
    pub vane: Option<String>,
    pub preset: Option<String>,
    pub assigned_sensor_id: Option<String>,
}

/// The unit a command addresses: the one it names, else the selected one.
pub open spec fn command_target(h: HomeView, cmd: ControlCommand) -> Seq<char> {
    match cmd.hvac_id {
        Some(t) => t@,
        None => h.selected_hvac_id,
    }
}

/// A unit after a per-unit action: power, temperature, fan, vane or sensor
/// binding set from the command (when given); setting a mode also turns
/// the unit on. Other actions leave it as it is.
pub open spec fn unit_after_action(u: HvacUnitView, cmd: ControlCommand) -> HvacUnitView {
    let a = cmd.action@;
    if a == "set_power"@ {
        match cmd.power {
            Some(p) => HvacUnitView { power: p@, ..u },
            None => u,
        }
    } else if a == "set_temperature"@ {
        match cmd.temperature {
            Some(t) => HvacUnitView { target_temperature: t, ..u },
            None => u,
        }
    } else if a == "set_mode"@ {
        match cmd.mode {
            Some(m) => HvacUnitView { mode: m@, power: "On"@, ..u },
            None => u,
        }
    } else if a == "set_fan"@ {
        match cmd.fan {
            Some(f) => HvacUnitView { fan_speed: f@, ..u },
            None => u,
        }
    } else if a == "set_vane"@ {
        match cmd.vane {
            Some(v) => HvacUnitView { vane: v@, ..u },
            None => u,
        }
    } else if a == "assign_sensor"@ {
        HvacUnitView { assigned_sensor_id: opt_str_view(cmd.assigned_sensor_id), ..u }
    } else {
        u
    }
}

/// A unit under a preset: comfort (22.0 °C, auto mode, auto fan), sleep
/// (21.0 °C, heat, quiet), eco (20.0 °C, heat, speed 1) or away (17.0 °C,
/// heat, quiet); other presets leave the unit as it is.
pub open spec fn unit_under_preset(u: HvacUnitView, p: Seq<char>) -> HvacUnitView {
    if p == "auto_comfort"@ {
        HvacUnitView { target_temperature: 220, mode: "Auto"@, fan_speed: "Auto"@, ..u }
    } else if p == "sleep"@ {
        HvacUnitView { target_temperature: 210, mode: "Heat"@, fan_speed: "Quiet"@, ..u }
    } else if p == "eco"@ {
        HvacUnitView { target_temperature: 200, mode: "Heat"@, fan_speed: "Speed1"@, ..u }
    } else if p == "away"@ {
        HvacUnitView { target_temperature: 170, mode: "Heat"@, fan_speed: "Quiet"@, ..u }
    } else {
        u
    }
}

/// The home under preset `p`: it becomes the global mode and applies to
/// every unit.
pub open spec fn home_under_preset(h: HomeView, p: Seq<char>) -> HomeView {
    HomeView {
        global_mode: p,
        hvacs: h.hvacs.map_values(|u: HvacUnitView| unit_under_preset(u, p)),
        ..h
    }
}

/// The home after a control command. The addressed unit, if it exists,
/// takes the per-unit action, or becomes the selected unit for
/// "select_hvac"; then "set_preset" with a preset applies it to the home.
pub open spec fn after_control(h: HomeView, cmd: ControlCommand) -> HomeView {
    let target = command_target(h, cmd);
    let h1 = match first_index(h.hvacs, has_unit_id(target)) {
        Some(i) => if cmd.action@ == "select_hvac"@ {
            HomeView { selected_hvac_id: target, ..h }
        } else {
            HomeView { hvacs: h.hvacs.update(i, unit_after_action(h.hvacs[i], cmd)), ..h }
        },
        None => h,
    };
    if cmd.action@ == "set_preset"@ && cmd.preset is Some {
        home_under_preset(h1, cmd.preset->0@)
    } else {
        h1
    }
}

/// A unit after a command that came over the socket: every setting the
/// command carries is applied, whatever its action.
pub open spec fn unit_after_socket_command(u: HvacUnitView, cmd: ControlCommand) -> HvacUnitView {
    HvacUnitView {
        target_temperature: match cmd.temperature {
            Some(t) => t,
            None => u.target_temperature,
        },
        power: match cmd.power {
            Some(p) => p@,
            None => u.power,
        },
        mode: match cmd.mode {
            Some(m) => m@,
            None => u.mode,
        },
        fan_speed: match cmd.fan {
            Some(f) => f@,
            None => u.fan_speed,
        },
        vane: match cmd.vane {
            Some(v) => v@,
            None => u.vane,
        },
        ..u
    }
}

pub open spec fn after_socket_command(h: HomeView, cmd: ControlCommand) -> HomeView {
    match first_index(h.hvacs, has_unit_id(command_target(h, cmd))) {
        Some(i) => HomeView {
            hvacs: h.hvacs.update(i, unit_after_socket_command(h.hvacs[i], cmd)),
            ..h
        },
        None => h,
    }
}

fn set_if_some(dst: &mut String, src: &Option<String>)
    ensures
        final(dst)@ == match src {
            Some(s) => s@,
            None => old(dst)@,
        },
{
    if let Some(s) = src {
        *dst = s.clone();
    }
}

impl HomeState {
    fn apply_action(unit: &mut HvacUnit, cmd: &ControlCommand)
        ensures
            final(unit)@ == unit_after_action(old(unit)@, *cmd),
    {
        if cmd.action == text("set_power") {
            set_if_some(&mut unit.power, &cmd.power);
        } else if cmd.action == text("set_temperature") {
            if let Some(t) = cmd.temperature {
                unit.target_temperature = t;
            }
        } else if cmd.action == text("set_mode") {
            if let Some(m) = &cmd.mode {
                unit.mode = m.clone();
                unit.power = text("On");
            }
        } else if cmd.action == text("set_fan") {
            set_if_some(&mut unit.fan_speed, &cmd.fan);
        } else if cmd.action == text("set_vane") {
            set_if_some(&mut unit.vane, &cmd.vane);
        } else if cmd.action == text("assign_sensor") {
            unit.assigned_sensor_id = opt_string_copy(&cmd.assigned_sensor_id);
        }
    }

    fn apply_preset(&mut self, preset: &String)
        ensures
            final(self)@ == home_under_preset(old(self)@, preset@),
    {
        self.global_mode = preset.clone();
        let ghost hv = units_view(self.hvacs@);
        let mut i: usize = 0;
        while i < self.hvacs.len()
            invariant
                i <= self.hvacs@.len(),
                self.hvacs@.len() == hv.len(),
                hv == units_view(old(self).hvacs@),
                forall|j: int|
                    0 <= j < hv.len() ==> #[trigger] units_view(self.hvacs@)[j] == if j < i {
                        unit_under_preset(hv[j], preset@)
                    } else {
                        hv[j]
                    },
                self.global_mode@ == preset@,
                self.selected_hvac_id == old(self).selected_hvac_id,
                self.sensors == old(self).sensors,
            decreases hv.len() - i,
        {
            let ghost before = self.hvacs@;
            assert(units_view(before)[i as int] == hv[i as int]);
            if *preset == text("auto_comfort") {
                self.hvacs[i].target_temperature = 220;
                self.hvacs[i].mode = text("Auto");
                self.hvacs[i].fan_speed = text("Auto");
            } else if *preset == text("sleep") {
                self.hvacs[i].target_temperature = 210;
                self.hvacs[i].mode = text("Heat");
                self.hvacs[i].fan_speed = text("Quiet");
            } else if *preset == text("eco") {
                self.hvacs[i].target_temperature = 200;
                self.hvacs[i].mode = text("Heat");
                self.hvacs[i].fan_speed = text("Speed1");
            } else if *preset == text("away") {
                self.hvacs[i].target_temperature = 170;
                self.hvacs[i].mode = text("Heat");
                self.hvacs[i].fan_speed = text("Quiet");
            }
            assert(self.hvacs@[i as int]@ == unit_under_preset(hv[i as int], preset@));
            assert forall|j: int| 0 <= j < hv.len() implies #[trigger] units_view(self.hvacs@)[j] == if j
                <= i {
                unit_under_preset(hv[j], preset@)
            } else {
                hv[j]
            } by {
                if j != i {
                    assert(self.hvacs@[j] == before[j]);
                    assert(units_view(before)[j] == before[j]@);
                }
            }
            i = i + 1;
        }
        assert(units_view(self.hvacs@) =~= hv.map_values(
            |u: HvacUnitView| unit_under_preset(u, preset@),
        ));
    }

    /// Applies a dashboard control command.
    pub fn handle_control(&mut self, cmd: &ControlCommand)
        ensures
            final(self)@ == after_control(old(self)@, *cmd),
    {
        let target = match &cmd.hvac_id {
            Some(t) => t.clone(),
            None => self.selected_hvac_id.clone(),
        };
        assert(target@ == command_target(old(self)@, *cmd));
        let ghost h1 = match first_index(old(self)@.hvacs, has_unit_id(target@)) {
            Some(i) => if cmd.action@ == "select_hvac"@ {
                HomeView { selected_hvac_id: target@, ..old(self)@ }
            } else {
                HomeView {
                    hvacs: old(self)@.hvacs.update(i, unit_after_action(old(self)@.hvacs[i], *cmd)),
                    ..old(self)@
                }
            },
            None => old(self)@,
        };
        proof {
            lemma_first_index_from(old(self)@.hvacs, has_unit_id(target@), 0);
        }
        match find_unit(&self.hvacs, &target) {
            Some(i) => {
                if cmd.action == text("select_hvac") {
                    self.selected_hvac_id = target;
                } else {
                    let ghost before = self.hvacs@;
                    Self::apply_action(&mut self.hvacs[i], cmd);
                    assert(units_view(self.hvacs@) =~= units_view(before).update(
                        i as int,
                        unit_after_action(units_view(before)[i as int], *cmd),
                    ));
                }
            },
            None => {},
        }
        assert(self@ == h1);
        if cmd.action == text("set_preset") {
            if let Some(preset) = &cmd.preset {
                self.apply_preset(preset);
            }
        }
    }

    /// Applies a command received over the socket: every setting it
    /// carries goes to the addressed unit.
    pub fn apply_socket_command(&mut self, cmd: &ControlCommand)
        ensures
            final(self)@ == after_socket_command(old(self)@, *cmd),
    {
        let target = match &cmd.hvac_id {
            Some(t) => t.clone(),
            None => self.selected_hvac_id.clone(),
        };
        if let Some(i) = find_unit(&self.hvacs, &target) {
            let ghost before = self.hvacs@;
            if let Some(t) = cmd.temperature {
                self.hvacs[i].target_temperature = t;
            }
            set_if_some(&mut self.hvacs[i].power, &cmd.power);
            set_if_some(&mut self.hvacs[i].mode, &cmd.mode);
            set_if_some(&mut self.hvacs[i].fan_speed, &cmd.fan);
            set_if_some(&mut self.hvacs[i].vane, &cmd.vane);
            assert(units_view(self.hvacs@) =~= units_view(before).update(
                i as int,
                unit_after_socket_command(units_view(before)[i as int], *cmd),
            ));
        }
    }
}

} // verus!

verus! {

/// The sensor a unit reads from: the one assigned to it or, when none is
/// assigned, the first sensor that detects presence.
pub open spec fn bound_sensor(sensors: Seq<SensorNodeView>, u: HvacUnitView) -> Option<int> {
    match u.assigned_sensor_id {
        Some(a) => first_index(sensors, has_sensor_id(a)),
        None => first_index(sensors, senses_presence()),
    }
}

pub open spec fn abs_diff(a: i32, b: i32) -> int {
    if a >= b {
        a - b
    } else {
        b - a
    }
}

/// The comfort rule for a running unit in comfort mode: more than 1.5 °C
/// off target raises a manual fan to speed 3; within 0.4 °C it drops a
/// manual fan to quiet. An automatic fan is left alone.
pub open spec fn comfort_fan(u: HvacUnitView, room: i32, auto_comfort: bool) -> Seq<char> {
    if auto_comfort && u.power == "On"@ {
        let d = abs_diff(room, u.target_temperature);
        if d > 15 && u.fan_speed != "Speed3"@ && u.fan_speed != "Auto"@ {
            "Speed3"@
        } else if d < 4 && u.fan_speed != "Quiet"@ && u.fan_speed != "Auto"@ {
            "Quiet"@
        } else {
            u.fan_speed
        }
    } else {
        u.fan_speed
    }
}

/// A unit after an orchestration round: a unit with a bound sensor takes
/// that sensor's temperature as its remote room temperature and the
/// comfort rule's fan speed; a unit without one is left alone.
pub open spec fn unit_after_tick(
    u: HvacUnitView,
    sensors: Seq<SensorNodeView>,
    auto_comfort: bool,
) -> HvacUnitView {
    match bound_sensor(sensors, u) {
        Some(j) => HvacUnitView {
            room_temperature: sensors[j].temperature,
            is_remote_temp_active: true,
            fan_speed: comfort_fan(u, sensors[j].temperature, auto_comfort),
            ..u
        },
        None => u,
    }
}

/// The home after an orchestration round over all units.
pub open spec fn after_tick(h: HomeView) -> HomeView {
    HomeView {
        hvacs: h.hvacs.map_values(
            |u: HvacUnitView| unit_after_tick(u, h.sensors, h.global_mode == "auto_comfort"@),
        ),
        ..h
    }
}

/// One telemetry row: a sensor's readings with the compressor frequency
/// and input power of the first unit (zero without units).
pub struct TelemetryPoint {
    pub room_id: String,
    pub temperature: i32,
    pub humidity: i32,
    pub compressor_freq: u8,
    pub power_watts: i32,
}

pub struct TelemetryPointView {
    pub room_id: Seq<char>,
    pub temperature: i32,
    pub humidity: i32,
    pub compressor_freq: u8,
    pub power_watts: i32,
}

impl View for TelemetryPoint {
    type V = TelemetryPointView;

    open spec fn view(&self) -> TelemetryPointView {
        TelemetryPointView {
            room_id: self.room_id@,
            temperature: self.temperature,
            humidity: self.humidity,
            compressor_freq: self.compressor_freq,
            power_watts: self.power_watts,
        }
    }
}

pub open spec fn telemetry_view(h: HomeView) -> Seq<TelemetryPointView> {
    h.sensors.map_values(
        |s: SensorNodeView|
            TelemetryPointView {
                room_id: s.id,
                temperature: s.temperature,
                humidity: s.humidity,
                compressor_freq: if h.hvacs.len() > 0 {
                    h.hvacs[0].compressor_frequency
                } else {
                    0
                },
                power_watts: if h.hvacs.len() > 0 {
                    h.hvacs[0].input_power_watts
                } else {
                    0
                },
            },
    )
}

impl HomeState {
    /// One round of the multi-zone orchestrator over all units.
    pub fn orchestrate(&mut self)
        ensures
            final(self)@ == after_tick(old(self)@),
    {
        let auto_comfort = self.global_mode == text("auto_comfort");
        let ghost hv = units_view(self.hvacs@);
        let ghost sv = sensors_view(self.sensors@);
        let mut i: usize = 0;
        while i < self.hvacs.len()
            invariant
                i <= self.hvacs@.len(),
                self.hvacs@.len() == hv.len(),
                hv == units_view(old(self).hvacs@),
                sv == sensors_view(self.sensors@),
                self.sensors == old(self).sensors,
                self.global_mode == old(self).global_mode,
                self.selected_hvac_id == old(self).selected_hvac_id,
                auto_comfort == (old(self)@.global_mode == "auto_comfort"@),
                forall|j: int|
                    0 <= j < hv.len() ==> #[trigger] units_view(self.hvacs@)[j] == if j < i {
                        unit_after_tick(hv[j], sv, auto_comfort)
                    } else {
                        hv[j]
                    },
            decreases hv.len() - i,
        {
            let ghost before = self.hvacs@;
            assert(units_view(before)[i as int] == hv[i as int]);
            let bound = match &self.hvacs[i].assigned_sensor_id {
                Some(assigned) => find_sensor(&self.sensors, assigned),
                None => find_present_sensor(&self.sensors),
            };
            assert(bound matches Some(j) ==> bound_sensor(sv, hv[i as int]) == Some(j as int));
            assert(bound is None ==> bound_sensor(sv, hv[i as int]) is None);
            if let Some(j) = bound {
                let room = self.sensors[j].temperature;
                assert(room == sv[j as int].temperature);
                self.hvacs[i].room_temperature = room;
                self.hvacs[i].is_remote_temp_active = true;
                if auto_comfort && self.hvacs[i].power == text("On") {
                    let target = self.hvacs[i].target_temperature;
                    let delta: i64 = if room >= target {
                        room as i64 - target as i64
                    } else {
                        target as i64 - room as i64
                    };
                    let fan_is_auto = self.hvacs[i].fan_speed == text("Auto");
                    if delta > 15 && self.hvacs[i].fan_speed != text("Speed3") && !fan_is_auto {
                        self.hvacs[i].fan_speed = text("Speed3");
                    } else if delta < 4 && self.hvacs[i].fan_speed != text("Quiet") && !fan_is_auto {
                        self.hvacs[i].fan_speed = text("Quiet");
                    }
                }
                assert(self.hvacs@[i as int]@ == unit_after_tick(hv[i as int], sv, auto_comfort));
            }
            assert forall|j: int| 0 <= j < hv.len() implies #[trigger] units_view(self.hvacs@)[j] == if j
                <= i {
                unit_after_tick(hv[j], sv, auto_comfort)
            } else {
                hv[j]
            } by {
                if j != i {
                    assert(self.hvacs@[j] == before[j]);
                    assert(units_view(before)[j] == before[j]@);
                }
            }
            i = i + 1;
        }
        assert(units_view(self.hvacs@) =~= hv.map_values(
            |u: HvacUnitView| unit_after_tick(u, sv, auto_comfort),
        ));
    }

    /// The telemetry rows of a history snapshot: one per sensor.
    pub fn telemetry_points(&self) -> (r: Vec<TelemetryPoint>)
        ensures
            r@.map_values(|p: TelemetryPoint| p@) == telemetry_view(self@),
    {
        let (freq, power): (u8, i32) = if self.hvacs.len() > 0 {
            (self.hvacs[0].compressor_frequency, self.hvacs[0].input_power_watts)
        } else {
            (0, 0)
        };
        let ghost target = telemetry_view(self@);
        let mut r: Vec<TelemetryPoint> = Vec::new();
        let mut i: usize = 0;
        while i < self.sensors.len()
            invariant
                i <= self.sensors@.len(),
                target == telemetry_view(self@),
                freq == (if self@.hvacs.len() > 0 {
                    self@.hvacs[0].compressor_frequency
                } else {
                    0
                }),
                power == (if self@.hvacs.len() > 0 {
                    self@.hvacs[0].input_power_watts
                } else {
                    0
                }),
                r@.map_values(|p: TelemetryPoint| p@) == target.take(i as int),
            decreases self.sensors@.len() - i,
        {
            let ghost before = r@;
            let s = &self.sensors[i];
            r.push(
                TelemetryPoint {
                    room_id: s.id.clone(),
                    temperature: s.temperature,
                    humidity: s.humidity,
                    compressor_freq: freq,
                    power_watts: power,
                },
            );
            assert(sensors_view(self.sensors@)[i as int] == self.sensors@[i as int]@);
            assert(r@.map_values(|p: TelemetryPoint| p@) =~= before.map_values(
                |p: TelemetryPoint| p@,
            ).push(target[i as int]));
            assert(target.take(i + 1) =~= target.take(i as int).push(target[i as int]));
            i = i + 1;
        }
        assert(target.take(i as int) =~= target);
        r
    }
}

} // verus!

verus! {

/// After a sensor is deleted, no sensor with its id is left and no unit is
/// bound to it.
pub proof fn lemma_deleted_sensor_is_gone(h: HomeView, id: Seq<char>)
    ensures
        forall|j: int|
            0 <= j < after_delete_sensor(h, id).sensors.len() ==> #[trigger] after_delete_sensor(
                h,
                id,
            ).sensors[j].id != id,
        forall|j: int|
            0 <= j < after_delete_sensor(h, id).hvacs.len() ==> #[trigger] after_delete_sensor(
                h,
                id,
            ).hvacs[j].assigned_sensor_id != Some(id),
        after_delete_sensor(h, id).hvacs.len() == h.hvacs.len(),
{
    let kept = h.sensors.filter(keeps_sensor(id));
    assert forall|j: int| 0 <= j < kept.len() implies #[trigger] kept[j].id != id by {
        h.sensors.lemma_filter_pred(keeps_sensor(id), j);
    }
}

/// After a unit is deleted, no unit with its id is left, the other units
/// keep their order, and if the selected unit was deleted while others
/// remain, the selection names a remaining unit.
pub proof fn lemma_deleted_unit_is_gone(h: HomeView, id: Seq<char>)
    ensures
        forall|j: int|
            0 <= j < after_delete_hvac(h, id).hvacs.len() ==> #[trigger] after_delete_hvac(
                h,
                id,
            ).hvacs[j].id != id,
        after_delete_hvac(h, id).hvacs == h.hvacs.filter(keeps_unit(id)),
        h.selected_hvac_id == id && after_delete_hvac(h, id).hvacs.len() > 0 ==> after_delete_hvac(
            h,
            id,
        ).selected_hvac_id == after_delete_hvac(h, id).hvacs[0].id,
        h.selected_hvac_id != id ==> after_delete_hvac(h, id).selected_hvac_id == h.selected_hvac_id,
{
    let kept = h.hvacs.filter(keeps_unit(id));
    assert forall|j: int| 0 <= j < kept.len() implies #[trigger] kept[j].id != id by {
        h.hvacs.lemma_filter_pred(keeps_unit(id), j);
    }
}

proof fn lemma_filter_all_kept<A>(s: Seq<A>, p: spec_fn(A) -> bool)
    requires
        forall|j: int| 0 <= j < s.len() ==> p(#[trigger] s[j]),
    ensures
        s.filter(p) == s,
    decreases s.len(),
{
    reveal(Seq::filter);
    if s.len() > 0 {
        lemma_filter_all_kept(s.drop_last(), p);
        assert(s.drop_last().push(s.last()) =~= s);
    }
}

/// Deleting a unit undoes registering it: for an id that no unit has and
/// that is not selected, registering a unit with it and then deleting that
/// id gives back the same home.
pub proof fn lemma_register_then_delete_hvac(h: HomeView, p: NewHvacPayload)
    requires
        forall|j: int| 0 <= j < h.hvacs.len() ==> #[trigger] h.hvacs[j].id != p.id@,
        h.selected_hvac_id != p.id@,
    ensures
        after_delete_hvac(HomeView { hvacs: h.hvacs.push(new_unit_view(p)), ..h }, p.id@) == h,
{
    let pushed = h.hvacs.push(new_unit_view(p));
    reveal(Seq::filter);
    assert(pushed.drop_last() =~= h.hvacs);
    lemma_filter_all_kept(h.hvacs, keeps_unit(p.id@));
}

/// Orchestration is idempotent: a second round right after a first one,
/// with the same sensor readings, changes nothing.
pub proof fn lemma_orchestration_idempotent(h: HomeView)
    ensures
        after_tick(after_tick(h)) == after_tick(h),
{
    let h1 = after_tick(h);
    let auto = h.global_mode == "auto_comfort"@;
    assert forall|j: int| 0 <= j < h.hvacs.len() implies #[trigger] unit_after_tick(
        h1.hvacs[j],
        h1.sensors,
        auto,
    ) == h1.hvacs[j] by {
        let u = h.hvacs[j];
        let u1 = h1.hvacs[j];
        assert(u1 == unit_after_tick(u, h.sensors, auto));
        assert(u1.assigned_sensor_id == u.assigned_sensor_id);
        assert(bound_sensor(h.sensors, u1) == bound_sensor(h.sensors, u));
    }
    assert(after_tick(h1).hvacs =~= h1.hvacs);
}

/// The comfort rule never overrides an automatic fan, only acts in comfort
/// mode on a running unit, and only ever sets speed 3 or quiet.
pub proof fn lemma_comfort_rule_scope(u: HvacUnitView, room: i32, auto_comfort: bool)
    ensures
        u.fan_speed == "Auto"@ ==> comfort_fan(u, room, auto_comfort) == u.fan_speed,
        !auto_comfort || u.power != "On"@ ==> comfort_fan(u, room, auto_comfort) == u.fan_speed,
        comfort_fan(u, room, auto_comfort) == u.fan_speed || comfort_fan(u, room, auto_comfort)
            == "Speed3"@ || comfort_fan(u, room, auto_comfort) == "Quiet"@,
{
}

} // verus!

verus! {

proof fn lemma_first_index_is<A>(s: Seq<A>, p: spec_fn(A) -> bool, k: int)
    requires
        0 <= k < s.len(),
        p(s[k]),
        forall|m: int| 0 <= m < k ==> !p(#[trigger] s[m]),
    ensures
        first_index(s, p) == Some(k),
{
    lemma_first_index_from(s, p, 0);
}

proof fn lemma_first_index_none<A>(s: Seq<A>, p: spec_fn(A) -> bool)
    requires
        forall|m: int| 0 <= m < s.len() ==> !p(#[trigger] s[m]),
    ensures
        first_index(s, p) is None,
{
    lemma_first_index_from(s, p, 0);
}

proof fn lemma_fan_names_differ()
    ensures
        "Speed3"@ != "Quiet"@,
        "Speed3"@ != "Auto"@,
        "Quiet"@ != "Auto"@,
{
    reveal_strlit("Speed3");
    reveal_strlit("Quiet");
    reveal_strlit("Auto");
    assert(("Speed3"@)[0] != ("Quiet"@)[0]);
    assert(("Speed3"@)[0] != ("Auto"@)[0]);
    assert(("Quiet"@)[0] != ("Auto"@)[0]);
}

/// One orchestration round, for unit `j` whose sensor is `k` (the first
/// sensor with the unit's assigned id or, without an assignment, the first
/// sensor that detects presence): the unit takes the sensor's temperature
/// `t` as its room temperature and marks the remote temperature active; its
/// identity, target, power and mode stay. In comfort mode, a running unit
/// with a manual fan that is not yet at speed 3 goes to speed 3 whenever
/// the room is more than 1.5 °C off target, below it as well as above it.
/// The fan changes only in comfort mode on a running unit with a manual
/// fan; it becomes quiet only with the room within 0.4 °C of target, and
/// becomes speed 3 only with the room more than 1.5 °C off target.
pub proof fn lemma_orchestration_round(h: HomeView, j: int, k: int)
    requires
        0 <= j < h.hvacs.len(),
        0 <= k < h.sensors.len(),
        match h.hvacs[j].assigned_sensor_id {
            Some(a) => h.sensors[k].id == a && forall|m: int|
                0 <= m < k ==> #[trigger] h.sensors[m].id != a,
            None => h.sensors[k].presence && forall|m: int|
                0 <= m < k ==> !#[trigger] h.sensors[m].presence,
        },
    ensures
        ({
            let u = h.hvacs[j];
            let v = after_tick(h).hvacs[j];
            let t = h.sensors[k].temperature;
            let comfort = h.global_mode == "auto_comfort"@ && u.power == "On"@;
            &&& v.room_temperature == t
            &&& v.is_remote_temp_active
            &&& v.id == u.id
            &&& v.target_temperature == u.target_temperature
            &&& v.power == u.power
            &&& v.mode == u.mode
            &&& v.assigned_sensor_id == u.assigned_sensor_id
            &&& (comfort && u.fan_speed != "Auto"@ && u.fan_speed != "Speed3"@ && (t
                > u.target_temperature + 15 || t < u.target_temperature - 15)) ==> v.fan_speed
                == "Speed3"@
            &&& v.fan_speed != u.fan_speed ==> comfort && u.fan_speed != "Auto"@
            &&& (v.fan_speed == "Quiet"@ && u.fan_speed != "Quiet"@) ==> u.target_temperature - 4
                < t < u.target_temperature + 4
            &&& (v.fan_speed == "Speed3"@ && u.fan_speed != "Speed3"@) ==> (t
                > u.target_temperature + 15 || t < u.target_temperature - 15)
        }),
{
    lemma_fan_names_differ();
    let u = h.hvacs[j];
    match u.assigned_sensor_id {
        Some(a) => lemma_first_index_is(h.sensors, has_sensor_id(a), k),
        None => lemma_first_index_is(h.sensors, senses_presence(), k),
    }
    assert(bound_sensor(h.sensors, u) == Some(k));
}

/// A unit with no sensor to bind (its assigned sensor is absent or, without
/// an assignment, no sensor detects presence) is left as it is.
pub proof fn lemma_orchestration_unbound(h: HomeView, j: int)
    requires
        0 <= j < h.hvacs.len(),
        match h.hvacs[j].assigned_sensor_id {
            Some(a) => forall|m: int| 0 <= m < h.sensors.len() ==> #[trigger] h.sensors[m].id != a,
            None => forall|m: int| 0 <= m < h.sensors.len() ==> !#[trigger] h.sensors[m].presence,
        },
    ensures
        after_tick(h).hvacs[j] == h.hvacs[j],
{
    match h.hvacs[j].assigned_sensor_id {
        Some(a) => lemma_first_index_none(h.sensors, has_sensor_id(a)),
        None => lemma_first_index_none(h.sensors, senses_presence()),
    }
}

/// The comfort rule depends on the distance to target only: rooms equally
/// far below and above the target get the same fan.
pub proof fn lemma_comfort_rule_symmetric(u: HvacUnitView, below: i32, above: i32, auto_comfort: bool)
    requires
        below <= u.target_temperature <= above,
        u.target_temperature - below == above - u.target_temperature,
    ensures
        comfort_fan(u, below, auto_comfort) == comfort_fan(u, above, auto_comfort),
{
}

} // verus!

verus! {

proof fn lemma_action_names_differ()
    ensures
        "set_fan"@ != "set_power"@,
        "set_fan"@ != "set_temperature"@,
        "set_fan"@ != "set_mode"@,
        "set_vane"@ != "set_power"@,
        "set_vane"@ != "set_temperature"@,
        "set_vane"@ != "set_mode"@,
        "set_vane"@ != "set_fan"@,
        "set_temperature"@ != "set_power"@,
        "set_mode"@ != "set_power"@,
        "set_mode"@ != "set_temperature"@,
        "assign_sensor"@ != "set_power"@,
        "assign_sensor"@ != "set_temperature"@,
        "assign_sensor"@ != "set_mode"@,
        "assign_sensor"@ != "set_fan"@,
        "assign_sensor"@ != "set_vane"@,
        "set_power"@ != "select_hvac"@,
        "set_temperature"@ != "select_hvac"@,
        "set_mode"@ != "select_hvac"@,
        "set_fan"@ != "select_hvac"@,
        "set_vane"@ != "select_hvac"@,
        "assign_sensor"@ != "select_hvac"@,
        "set_power"@ != "set_preset"@,
        "set_temperature"@ != "set_preset"@,
        "set_mode"@ != "set_preset"@,
        "set_fan"@ != "set_preset"@,
        "set_vane"@ != "set_preset"@,
        "assign_sensor"@ != "set_preset"@,
{
    reveal_strlit("set_fan");
    reveal_strlit("set_power");
    reveal_strlit("set_temperature");
    reveal_strlit("set_mode");
    reveal_strlit("set_vane");
    reveal_strlit("assign_sensor");
    reveal_strlit("select_hvac");
    reveal_strlit("set_preset");
    assert(("set_fan"@)[4] != ("set_power"@)[4]);
    assert(("set_fan"@)[4] != ("set_temperature"@)[4]);
    assert(("set_fan"@)[4] != ("set_mode"@)[4]);
    assert(("set_vane"@)[4] != ("set_power"@)[4]);
    assert(("set_vane"@)[4] != ("set_temperature"@)[4]);
    assert(("set_vane"@)[4] != ("set_mode"@)[4]);
    assert(("set_vane"@)[4] != ("set_fan"@)[4]);
    assert(("set_temperature"@)[4] != ("set_power"@)[4]);
    assert(("set_mode"@)[4] != ("set_power"@)[4]);
    assert(("set_mode"@)[4] != ("set_temperature"@)[4]);
    assert(("assign_sensor"@)[0] != ("set_power"@)[0]);
    assert(("assign_sensor"@)[0] != ("set_temperature"@)[0]);
    assert(("assign_sensor"@)[0] != ("set_mode"@)[0]);
    assert(("assign_sensor"@)[0] != ("set_fan"@)[0]);
    assert(("assign_sensor"@)[0] != ("set_vane"@)[0]);
    assert(("set_power"@)[2] != ("select_hvac"@)[2]);
    assert(("set_temperature"@)[2] != ("select_hvac"@)[2]);
    assert(("set_mode"@)[2] != ("select_hvac"@)[2]);
    assert(("set_fan"@)[2] != ("select_hvac"@)[2]);
    assert(("set_vane"@)[2] != ("select_hvac"@)[2]);
    assert(("assign_sensor"@)[0] != ("select_hvac"@)[0]);
    assert(("set_power"@)[5] != ("set_preset"@)[5]);
    assert(("set_temperature"@)[4] != ("set_preset"@)[4]);
    assert(("set_mode"@)[4] != ("set_preset"@)[4]);
    assert(("set_fan"@)[4] != ("set_preset"@)[4]);
    assert(("set_vane"@)[4] != ("set_preset"@)[4]);
    assert(("assign_sensor"@)[0] != ("set_preset"@)[0]);
}

/// `v` keeps the identity and readings of `u`: everything but its
/// settings (power, mode, target, fan, vane) and its sensor binding.
pub open spec fn keeps_identity_and_readings(v: HvacUnitView, u: HvacUnitView) -> bool {
    &&& v.id == u.id
    &&& v.name == u.name
    &&& v.model == u.model
    &&& v.room_temperature == u.room_temperature
    &&& v.outside_temperature == u.outside_temperature
    &&& v.operating == u.operating
    &&& v.compressor_frequency == u.compressor_frequency
    &&& v.input_power_watts == u.input_power_watts
    &&& v.energy_kwh == u.energy_kwh
    &&& v.is_remote_temp_active == u.is_remote_temp_active
    &&& v.connected == u.connected
}

/// What each per-unit command does to the unit it addresses: it sets the
/// one setting it names to the value it carries and leaves every other
/// setting, the sensor binding and the unit's identity and readings as
/// they were; setting a mode also switches the unit on. A command without
/// its value changes nothing.
pub proof fn lemma_unit_actions(u: HvacUnitView, cmd: ControlCommand)
    ensures
        keeps_identity_and_readings(unit_after_action(u, cmd), u),
        cmd.action@ == "set_fan"@ ==> {
            let v = unit_after_action(u, cmd);
            &&& v.fan_speed == (match cmd.fan {
                Some(f) => f@,
                None => u.fan_speed,
            })
            &&& v.vane == u.vane
            &&& v.power == u.power
            &&& v.mode == u.mode
            &&& v.target_temperature == u.target_temperature
            &&& v.assigned_sensor_id == u.assigned_sensor_id
        },
        cmd.action@ == "set_vane"@ ==> {
            let v = unit_after_action(u, cmd);
            &&& v.vane == (match cmd.vane {
                Some(x) => x@,
                None => u.vane,
            })
            &&& v.fan_speed == u.fan_speed
            &&& v.power == u.power
            &&& v.mode == u.mode
            &&& v.target_temperature == u.target_temperature
            &&& v.assigned_sensor_id == u.assigned_sensor_id
        },
        cmd.action@ == "set_power"@ ==> {
            let v = unit_after_action(u, cmd);
            &&& v.power == (match cmd.power {
                Some(x) => x@,
                None => u.power,
            })
            &&& v.fan_speed == u.fan_speed
            &&& v.vane == u.vane
            &&& v.mode == u.mode
            &&& v.target_temperature == u.target_temperature
            &&& v.assigned_sensor_id == u.assigned_sensor_id
        },
        cmd.action@ == "set_temperature"@ ==> {
            let v = unit_after_action(u, cmd);
            &&& v.target_temperature == (match cmd.temperature {
                Some(t) => t,
                None => u.target_temperature,
            })
            &&& v.fan_speed == u.fan_speed
            &&& v.vane == u.vane
            &&& v.power == u.power
            &&& v.mode == u.mode
            &&& v.assigned_sensor_id == u.assigned_sensor_id
        },
        cmd.action@ == "set_mode"@ ==> {
            let v = unit_after_action(u, cmd);
            &&& v.mode == (match cmd.mode {
                Some(m) => m@,
                None => u.mode,
            })
            &&& cmd.mode is Some ==> v.power == "On"@
            &&& cmd.mode is None ==> v.power == u.power
            &&& v.fan_speed == u.fan_speed
            &&& v.vane == u.vane
            &&& v.target_temperature == u.target_temperature
            &&& v.assigned_sensor_id == u.assigned_sensor_id
        },
        cmd.action@ == "assign_sensor"@ ==> {
            let v = unit_after_action(u, cmd);
            &&& v.assigned_sensor_id == (match cmd.assigned_sensor_id {
                Some(a) => Some(a@),
                None => None,
            })
            &&& v.fan_speed == u.fan_speed
            &&& v.vane == u.vane
            &&& v.power == u.power
            &&& v.mode == u.mode
            &&& v.target_temperature == u.target_temperature
        },
{
    lemma_action_names_differ();
}

/// A per-unit dashboard command reaches exactly the unit it addresses (the
/// first with the named id, else the selected one) and no other, and keeps
/// the selection, the global mode and the sensors; a "set_fan" command sets
/// that unit's fan and leaves its vane.
pub proof fn lemma_control_reaches_addressed_unit(h: HomeView, cmd: ControlCommand, i: int)
    requires
        cmd.action@ == "set_fan"@ || cmd.action@ == "set_vane"@ || cmd.action@ == "set_power"@
            || cmd.action@ == "set_temperature"@ || cmd.action@ == "set_mode"@ || cmd.action@
            == "assign_sensor"@,
        0 <= i < h.hvacs.len(),
        h.hvacs[i].id == command_target(h, cmd),
        forall|m: int| 0 <= m < i ==> #[trigger] h.hvacs[m].id != command_target(h, cmd),
    ensures
        after_control(h, cmd).hvacs.len() == h.hvacs.len(),
        after_control(h, cmd).hvacs[i] == unit_after_action(h.hvacs[i], cmd),
        forall|m: int|
            0 <= m < h.hvacs.len() && m != i ==> #[trigger] after_control(h, cmd).hvacs[m]
                == h.hvacs[m],
        after_control(h, cmd).selected_hvac_id == h.selected_hvac_id,
        after_control(h, cmd).global_mode == h.global_mode,
        after_control(h, cmd).sensors == h.sensors,
        cmd.action@ == "set_fan"@ && cmd.fan is Some ==> after_control(h, cmd).hvacs[i].fan_speed
            == cmd.fan->0@ && after_control(h, cmd).hvacs[i].vane == h.hvacs[i].vane,
{
    lemma_action_names_differ();
    lemma_first_index_is(h.hvacs, has_unit_id(command_target(h, cmd)), i);
    lemma_unit_actions(h.hvacs[i], cmd);
}

} // verus!
