//! An in-memory registry for a network of weather stations: the stations
//! themselves, the sensors mounted on them, the catalog of measurement types
//! a sensor can report, the station-sensor and sensor-type bindings, and the
//! time-series measurements keyed by sensor inventory number.
//!
//! Every operation is specified against a mathematical view of the store and
//! verified: referential deletion guards, coalescing partial updates,
//! full-replace binding updates, and the join used to filter measurements.

pub mod clock;
pub mod laws;
pub mod measurement_type;
pub mod measurements;
pub mod meteostations;
pub mod meteostations_sensor;
pub mod models;
pub mod sensors;
pub mod sensors_measurements;
pub mod store;
