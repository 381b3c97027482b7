//! The emitters of a simulation: one for every copy of every sensor of every device, in the
//! order of the tree (the sensors of a device, then the devices below it). Each emitter is
//! keyed by the path of its device and the id of its sensor. Where a sensor is replicated,
//! each copy gets a fresh random id and its copy number appended to its name. All copies
//! keep the generator handle of the sensor, so they draw their values from one shared
//! generator instance rather than from one each.

use vstd::prelude::*;
use vstd::string::StringExecFns;
use crate::emitter::{sensor_emitter, EmitterView, SensorEmitter};
use crate::ids::{is_random_uuid, uuid_text, uuid_to_string, IdSource};
use crate::model::{clone_pairs, pairs_view, Device, Sensor};
use crate::text::{decimal, join_path, slash_join, u32_to_decimal};

verus! {

/// One planned emitter: a copy of a sensor of the device at `device_path`.
pub struct PlannedEmitter {
    pub device_path: Seq<char>,
    pub sensor: Sensor,
    pub copy: nat,
}

/// The copies of one sensor.
pub open spec fn sensor_copies(path: Seq<char>, s: Sensor) -> Seq<PlannedEmitter> {
    Seq::new(s.replicate as nat, |i: int| PlannedEmitter { device_path: path, sensor: s, copy: i as nat })
}

/// The copies of a list of sensors of the device at `path`.
pub open spec fn sensors_plan(path: Seq<char>, ss: Seq<Sensor>) -> Seq<PlannedEmitter>
    decreases ss.len(),
{
    if ss.len() == 0 {
        seq![]
    } else {
        sensors_plan(path, ss.drop_last()) + sensor_copies(path, ss.last())
    }
}

/// The emitters of a device below `path` and of all devices below it.
pub open spec fn device_plan(path: Seq<char>, d: Device) -> Seq<PlannedEmitter>
    decreases d,
{
    let full = slash_join(path, d.name@);
    sensors_plan(full, d.sensors@) + devices_plan(full, d.devices@)
}

/// The emitters of a list of devices below `path`.
pub open spec fn devices_plan(path: Seq<char>, ds: Seq<Device>) -> Seq<PlannedEmitter>
    decreases ds,
{
    if ds.len() == 0 {
        seq![]
    } else {
        devices_plan(path, ds.drop_last()) + device_plan(path, ds.last())
    }
}

/// Whether an emitter under a key is the planned one, started at `start_at` and ending at
/// `end_at`. A copy of a replicated sensor has a random id and its copy number after its
/// name; a sensor that is not replicated keeps its id and name.
pub open spec fn emitter_matches(
    key: Seq<char>,
    e: EmitterView,
    p: PlannedEmitter,
    start_at: i128,
    end_at: i128,
) -> bool {
    let renamed = p.sensor.replicate > 1;
    &&& e.device_path == p.device_path
    &&& e.name == (if renamed { p.sensor.name@ + decimal(p.copy) } else { p.sensor.name@ })
    &&& (if renamed { is_random_uuid(e.sensor_id) } else { e.sensor_id == p.sensor.id })
    &&& e.metadata == pairs_view(p.sensor.metadata@)
    &&& e.value_generator == p.sensor.value_generator
    &&& e.sampling_rate == p.sensor.sampling_rate
    &&& e.start_at == start_at
    &&& e.end_at == end_at
    &&& e.current == start_at
    &&& e.steps == 0
    &&& !e.finished
    &&& e.wf()
    &&& key == slash_join(p.device_path, uuid_text(e.sensor_id))
}

/// Whether a list of keyed emitters is, one for one, a list of planned emitters.
pub open spec fn emitters_match(
    out: Seq<(String, SensorEmitter)>,
    plan: Seq<PlannedEmitter>,
    start_at: i128,
    end_at: i128,
) -> bool {
    &&& out.len() == plan.len()
    &&& forall|i: int|
        0 <= i < out.len() ==> emitter_matches(
            #[trigger] out[i].0@,
            out[i].1@,
            plan[i],
            start_at,
            end_at,
        )
}

/// The sensor ids of a list of keyed emitters.
pub open spec fn sensor_ids(out: Seq<(String, SensorEmitter)>) -> Seq<u128> {
    out.map_values(|e: (String, SensorEmitter)| e.1@.sensor_id)
}

/// Appends the emitters of the copies of one sensor. Each copy of a replicated sensor takes
/// the next draw of `source` as its id, one draw per copy, in order; a sensor that is not
/// replicated draws nothing.
fn push_copies(
    out: &mut Vec<(String, SensorEmitter)>,
    full_path: &String,
    sensor: &Sensor,
    start_at: i128,
    end_at: i128,
    source: &mut IdSource,
    Ghost(plan): Ghost<Seq<PlannedEmitter>>,
)
    requires
        emitters_match(old(out)@, plan, start_at, end_at),
    ensures
        emitters_match(final(out)@, plan + sensor_copies(full_path@, *sensor), start_at, end_at),
        sensor.replicate > 1 ==> final(source).drawn().len() == old(source).drawn().len()
            + sensor.replicate,
        sensor.replicate > 1 ==> sensor_ids(final(out)@).skip(old(out)@.len() as int)
            == final(source).drawn().skip(old(source).drawn().len() as int),
        sensor.replicate <= 1 ==> final(source).drawn() == old(source).drawn(),
{
    let ghost copies = sensor_copies(full_path@, *sensor);
    let ghost out0 = out@.len();
    let ghost drawn0 = source.drawn().len();
    let renamed = sensor.replicate > 1;
    let mut k: u32 = 0;
    while k < sensor.replicate
        invariant
            k <= sensor.replicate,
            renamed == (sensor.replicate > 1),
            copies == sensor_copies(full_path@, *sensor),
            emitters_match(out@, plan + copies.take(k as int), start_at, end_at),
            out0 == plan.len(),
            renamed ==> source.drawn().len() == drawn0 + k,
            renamed ==> sensor_ids(out@).skip(out0 as int) == source.drawn().skip(drawn0 as int),
            !renamed ==> source.drawn().len() == drawn0,
            !renamed ==> source.drawn() == old(source).drawn(),
            drawn0 == old(source).drawn().len(),
        decreases sensor.replicate - k,
    {
        let ghost drawn_before = source.drawn();
        let id = if renamed { source.next_id() } else { sensor.id };
        let name = if renamed {
            let mut n = sensor.name.clone();
            let number = u32_to_decimal(k);
            n.append(number.as_str());
            n
        } else {
            sensor.name.clone()
        };
        let copy = Sensor {
            id,
            name,
            metadata: clone_pairs(&sensor.metadata),
            sampling_rate: sensor.sampling_rate,
            replicate: sensor.replicate,
            value_generator: sensor.value_generator,
        };
        let id_text = uuid_to_string(id);
        let key = join_path(full_path.as_str(), id_text.as_str());
        let emitter = sensor_emitter(full_path.clone(), copy, start_at, end_at);
        let ghost before = out@;
        out.push((key, emitter));
        proof {
            if renamed {
                assert(sensor_ids(out@) =~= sensor_ids(before).push(id));
                assert(sensor_ids(out@).skip(out0 as int) =~= sensor_ids(before).skip(
                    out0 as int,
                ).push(id));
                assert(source.drawn().skip(drawn0 as int) =~= drawn_before.skip(drawn0 as int).push(
                    id,
                ));
            }
            let target = plan + copies.take(k + 1);
            assert(target =~= (plan + copies.take(k as int)).push(copies[k as int]));
            assert forall|i: int| 0 <= i < out@.len() implies emitter_matches(
                #[trigger] out@[i].0@,
                out@[i].1@,
                target[i],
                start_at,
                end_at,
            ) by {
                if i < before.len() {
                    assert(out@[i] == before[i]);
                }
            }
        }
        k = k + 1;
    }
    assert(copies.take(sensor.replicate as int) =~= copies);
}

/// Appends the emitters of a list of sensors.
fn push_sensors(
    out: &mut Vec<(String, SensorEmitter)>,
    full_path: &String,
    sensors: &Vec<Sensor>,
    start_at: i128,
    end_at: i128,
    source: &mut IdSource,
    Ghost(plan): Ghost<Seq<PlannedEmitter>>,
)
    requires
        emitters_match(old(out)@, plan, start_at, end_at),
    ensures
        emitters_match(final(out)@, plan + sensors_plan(full_path@, sensors@), start_at, end_at),
{
    let mut j: usize = 0;
    while j < sensors.len()
        invariant
            j <= sensors@.len(),
            emitters_match(out@, plan + sensors_plan(full_path@, sensors@.take(j as int)), start_at, end_at),
        decreases sensors@.len() - j,
    {
        let ghost before = plan + sensors_plan(full_path@, sensors@.take(j as int));
        push_copies(out, full_path, &sensors[j], start_at, end_at, source, Ghost(before));
        proof {
            let t = sensors@.take(j + 1);
            assert(t.drop_last() =~= sensors@.take(j as int));
            assert(t.last() == sensors@[j as int]);
            assert(before + sensor_copies(full_path@, sensors@[j as int]) =~= plan + sensors_plan(
                full_path@,
                t,
            ));
        }
        j = j + 1;
    }
    assert(sensors@.take(sensors@.len() as int) =~= sensors@);
}

/// Appends the emitters of a list of devices below `path`, and of the devices below them.
fn push_devices(
    out: &mut Vec<(String, SensorEmitter)>,
    path: &str,
    devices: &Vec<Device>,
    start_at: i128,
    end_at: i128,
    source: &mut IdSource,
    Ghost(plan): Ghost<Seq<PlannedEmitter>>,
)
    requires
        emitters_match(old(out)@, plan, start_at, end_at),
    ensures
        emitters_match(final(out)@, plan + devices_plan(path@, devices@), start_at, end_at),
    decreases devices@,
{
    let mut i: usize = 0;
    while i < devices.len()
        invariant
            i <= devices@.len(),
            emitters_match(out@, plan + devices_plan(path@, devices@.take(i as int)), start_at, end_at),
        decreases devices@.len() - i,
    {
        let device = &devices[i];
        let ghost before = plan + devices_plan(path@, devices@.take(i as int));
        let full_path = join_path(path, device.name.as_str());
        push_sensors(out, &full_path, &device.sensors, start_at, end_at, source, Ghost(before));
        let ghost middle = before + sensors_plan(full_path@, device.sensors@);
        if device.devices.len() > 0 {
            proof {
                assert(decreases_to!(devices@ => devices@[i as int]));
                assert(decreases_to!(devices@[i as int] => devices@[i as int].devices));
            }
            push_devices(out, full_path.as_str(), &device.devices, start_at, end_at, source, Ghost(middle));
        } else {
            assert(devices_plan(full_path@, device.devices@) =~= Seq::<PlannedEmitter>::empty());
            assert(middle + devices_plan(full_path@, device.devices@) =~= middle);
        }
        proof {
            let t = devices@.take(i + 1);
            assert(t.drop_last() =~= devices@.take(i as int));
            assert(t.last() == devices@[i as int]);
            assert(full_path@ == slash_join(path@, devices@[i as int].name@));
            assert(device_plan(path@, devices@[i as int]) == sensors_plan(full_path@, device.sensors@)
                + devices_plan(full_path@, device.devices@));
            assert(devices_plan(path@, t) == devices_plan(path@, devices@.take(i as int))
                + device_plan(path@, devices@[i as int]));
            assert(middle + devices_plan(full_path@, device.devices@) =~= plan + devices_plan(
                path@,
                t,
            ));
        }
        i = i + 1;
    }
    assert(devices@.take(devices@.len() as int) =~= devices@);
}

/// The emitters of all sensors of a tree of devices below `path`, from `start_at` to
/// `end_at`, each under its key: the path of its device, a slash, and the text of its
/// sensor's id.
pub fn generate_emitters(path: &str, start_at: i128, end_at: i128, devices: &Vec<Device>) -> (r: Vec<
    (String, SensorEmitter),
>)
    ensures
        emitters_match(r@, devices_plan(path@, devices@), start_at, end_at),
{
    let mut out: Vec<(String, SensorEmitter)> = Vec::new();
    let mut source = IdSource::new();
    push_devices(&mut out, path, devices, start_at, end_at, &mut source, Ghost(Seq::empty()));
    assert(Seq::<PlannedEmitter>::empty() + devices_plan(path@, devices@) =~= devices_plan(
        path@,
        devices@,
    ));
    out
}

} // verus!
