//! The simulation that a simulation file describes: a tree of devices whose sensors
//! produce values at a fixed rate between a start and an end instant.

use vstd::prelude::*;

verus! {

/// A sensor of a device.
#[derive(Debug)]
pub struct Sensor {
    /// The id of the sensor.
    pub id: u128,
    /// The name of the sensor.
    pub name: String,
    /// Free metadata, as name and value pairs.
    pub metadata: Vec<(String, String)>,
    /// The time between two values, in milliseconds.
    pub sampling_rate: i64,
    /// How many copies of the sensor the simulation runs.
    pub replicate: u32,
    /// The handle, in the plugin registry, of the generator of its values.
    pub value_generator: usize,
}

/// A device: named, with sensors and with devices of its own.
#[derive(Debug)]
pub struct Device {
    /// The id of the device.
    pub id: u128,
    /// The name of the device; it makes up one step of the paths below it.
    pub name: String,
    /// Free metadata, as name and value pairs.
    pub metadata: Vec<(String, String)>,
    /// The sensors of the device.
    pub sensors: Vec<Sensor>,
    /// The devices that belong to this one.
    pub devices: Vec<Device>,
}

/// A simulation: its devices and the instants, in nanoseconds since the epoch, between
/// which their sensors produce values.
#[derive(Debug)]
pub struct Simulation {
    /// The name of the simulation.
    pub name: String,
    /// A description; empty where the file gives none.
    pub description: String,
    /// The first instant of every sensor.
    pub start_at: i128,
    /// The instant after which no sensor produces values (unless it is still behind the clock).
    pub end_at: i128,
    /// The devices at the top of the tree.
    pub devices: Vec<Device>,
    /// The ids of the output plugins that receive the values.
    pub output_plugins: Vec<String>,
}

/// Metadata as name and value texts.
pub open spec fn pairs_view(pairs: Seq<(String, String)>) -> Seq<(Seq<char>, Seq<char>)> {
    pairs.map_values(|p: (String, String)| (p.0@, p.1@))
}

/// A copy of a list of name and value pairs.
pub fn clone_pairs(pairs: &Vec<(String, String)>) -> (r: Vec<(String, String)>)
    ensures
        pairs_view(r@) == pairs_view(pairs@),
{
    let mut out: Vec<(String, String)> = Vec::new();
    let mut i: usize = 0;
    while i < pairs.len()
        invariant
            i <= pairs@.len(),
            out@.len() == i,
            forall|j: int| 0 <= j < i ==> out@[j].0@ == pairs@[j].0@ && out@[j].1@ == pairs@[j].1@,
        decreases pairs@.len() - i,
    {
        out.push((pairs[i].0.clone(), pairs[i].1.clone()));
        i = i + 1;
    }
    assert(pairs_view(out@) =~= pairs_view(pairs@));
    out
}

} // verus!
