//! Protocol core of a driver for the Si70xx family of relative-humidity and
//! temperature sensors.
//!
//! The sensor sits on a two-wire bus. This crate performs no bus traffic
//! itself: for each operation it says which bus access has to be made, and
//! it turns the outcome of that access into the operation's result. The
//! caller owns the bus and carries the access out in between.
//!
//! ```text
//! let driver = Si70xx::<FixedAddress>::new();
//!
//! let request = driver.measure_request();
//! driver.measure(bus.write(request.address, &request.bytes))?;
//!
//! let mut request = driver.humidity_request();
//! let outcome = bus.read(request.address, &mut request.buffer).map(|()| request.buffer);
//! let humidity = driver.read_humidity(outcome)?;
//! ```

pub mod address;
pub mod bus;
pub mod command;
pub mod conversion;
pub mod driver;
pub mod error;

pub use address::Address;
pub use bus::{Read, Write, WriteRead, RESPONSE_LEN};
pub use command::Command;
pub use driver::{FixedAddress, SelectableAddress, Si70xx};
pub use error::Error;
