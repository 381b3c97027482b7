//! A simulator of hierarchies of IoT devices and sensors: the configuration model,
//! the time expressions of a simulation, the registry of generator and output plugins,
//! the planning of sensor emitters and the pacing of each emitter.

pub mod args;
pub mod clock;
pub mod config;
pub mod constant;
pub mod datetime;
pub mod emitter;
pub mod faker;
pub mod generator;
pub mod ids;
pub mod model;
pub mod offset;
pub mod output;
pub mod plan;
pub mod registry;
pub mod sampling;
pub mod sma;
pub mod stdout;
pub mod typed;
pub mod text;
