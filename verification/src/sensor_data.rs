//! A sensor and where it stands.

use vstd::prelude::*;

use crate::reading::HibouAir;

verus! {

/// The families of sensors that can be shown.
#[derive(Debug, Clone, Copy, PartialEq, Eq, Structural)]
pub enum SensorType {
    HibouAir,
}

/// The latest data of a sensor, by family.
#[derive(Debug, Clone, Copy, PartialEq)]
pub enum SensorData {
    HibouAir(HibouAir),
}

impl SensorData {
    /// The family that this data belongs to.
    pub open spec fn spec_sensor_type(self) -> SensorType {
        match self {
            SensorData::HibouAir(_) => SensorType::HibouAir,
        }
    }

    /// The family that this data belongs to.
    pub fn sensor_type(&self) -> (r: SensorType)
        ensures
            r == self.spec_sensor_type(),
    {
        match self {
            SensorData::HibouAir(_) => SensorType::HibouAir,
        }
    }
}

/// A sensor: the place it is at, its family and its latest data.
#[derive(Debug, Clone, PartialEq)]
pub struct Sensor {
    pub location: String,
    pub sensor_type: SensorType,
    pub data: SensorData,
}

} // verus!
