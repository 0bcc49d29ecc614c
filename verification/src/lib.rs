//! Protocol driver for a BleuIO BLE-scanning dongle and decoder for the
//! advertisements of HibouAir environmental sensors.

pub mod codec;
pub mod display;
pub mod driver;
pub mod reading;
pub mod registry;
pub mod response;
pub mod sensor_data;
pub mod text;

pub use codec::{decode_advertisement, DecodeError};
pub use driver::{BleuIOCommand, BootstrapState, Driver, DriverAction, DriverInput};
pub use reading::{HibouAir, HibouAirType, VocType};
pub use registry::SensorRegistry;
pub use response::{classify, ParseError, ProtocolResponse};
pub use sensor_data::{Sensor, SensorData, SensorType};
