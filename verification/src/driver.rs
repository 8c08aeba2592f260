//! The driver: three operations, each one bus access and what follows from
//! its outcome.
//!
//! An operation takes two steps. The driver first names the bus access to
//! make ([`Si70xx::measure_request`], [`Si70xx::humidity_request`],
//! [`Si70xx::temperature_request`]). The caller makes it, and hands the
//! outcome to the operation itself ([`Si70xx::measure`],
//! [`Si70xx::read_humidity`], [`Si70xx::read_temperature`]), which gives the
//! result.
//!
//! The readings are those of the last measurement: reading before a
//! measurement has completed is the caller's mistake, and the driver does not
//! guard against it. Nor does it wait: where the bus does not let the sensor
//! hold the clock, the caller leaves the sensor time to convert.

use core::marker::PhantomData;
use vstd::prelude::*;

use crate::address::Address;
use crate::bus::{Read, Write, WriteRead, RESPONSE_LEN};
use crate::command::Command;
use crate::conversion::{
    code_from_response, humidity_from_code, humidity_word, raw_code, temperature_centi,
    temperature_from_code,
};
use crate::error::Error;

verus! {

/// Marks the driver of a sensor whose address is fixed.
pub struct FixedAddress;

/// Marks the driver of a sensor whose address is selected by a pin (Si7013).
pub struct SelectableAddress;

/// Driver of one sensor.
///
/// The driver holds the address of its sensor, set when it is made and never
/// changed, and nothing else.
pub struct Si70xx<V> {
    address: Address,
    variant: PhantomData<V>,
}

impl Si70xx<FixedAddress> {
    /// The driver of a sensor at its fixed address.
    pub closed spec fn spec_new() -> Self {
        Si70xx { address: Address::H40, variant: PhantomData }
    }

    /// Makes the driver of a sensor whose address is fixed.
    #[verifier::when_used_as_spec(spec_new)]
    pub fn new() -> (driver: Self)
        ensures
            driver == Self::spec_new(),
            driver.address() == Address::H40,
    {
        Si70xx { address: Address::H40, variant: PhantomData }
    }
}

impl Si70xx<SelectableAddress> {
    /// The driver of a sensor that answers at `address`.
    pub closed spec fn spec_new(address: Address) -> Self {
        Si70xx { address, variant: PhantomData }
    }

    /// Makes the driver of a sensor that was set up to answer at `address`.
    #[verifier::when_used_as_spec(spec_new)]
    pub fn new(address: Address) -> (driver: Self)
        ensures
            driver == Self::spec_new(address),
            driver.address() == address,
    {
        Si70xx { address, variant: PhantomData }
    }
}

impl<V> Si70xx<V> {
    /// The address of the sensor.
    pub closed spec fn spec_address(&self) -> Address {
        self.address
    }

    /// The address of the sensor.
    #[verifier::when_used_as_spec(spec_address)]
    pub fn address(&self) -> (address: Address)
        ensures
            address == self.spec_address(),
    {
        self.address
    }

    /// The bus access that starts a measurement: one write of the command
    /// byte 0xE5 to the sensor.
    pub open spec fn spec_measure_request(&self) -> Write {
        Write { address: self.address().value(), bytes: [Command::MeasureRhHoldMaster.code()] }
    }

    /// The bus access that starts a measurement of humidity and temperature.
    #[verifier::when_used_as_spec(spec_measure_request)]
    pub fn measure_request(&self) -> (request: Write)
        ensures
            request == self.spec_measure_request(),
            request.address == self.address().value(),
            request.bytes@ == seq![0xE5u8],
    {
        Write { address: self.address.value(), bytes: [Command::MeasureRhHoldMaster.code()] }
    }

    /// The bus access that fetches the humidity: one read of two bytes from
    /// the sensor.
    pub open spec fn spec_humidity_request(&self) -> Read {
        Read { address: self.address().value(), buffer: [0u8, 0u8] }
    }

    /// The bus access that fetches the humidity of the last measurement.
    #[verifier::when_used_as_spec(spec_humidity_request)]
    pub fn humidity_request(&self) -> (request: Read)
        ensures
            request == self.spec_humidity_request(),
            request.address == self.address().value(),
            request.buffer@.len() == 2,
    {
        Read { address: self.address.value(), buffer: [0u8, 0u8] }
    }

    /// The bus access that fetches the temperature: one combined transaction
    /// that writes the command byte 0xE0 and then reads two bytes.
    pub open spec fn spec_temperature_request(&self) -> WriteRead {
        WriteRead {
            address: self.address().value(),
            bytes: [Command::ReadTemperatureFromRh.code()],
            buffer: [0u8, 0u8],
        }
    }

    /// The bus access that fetches the temperature of the last measurement.
    #[verifier::when_used_as_spec(spec_temperature_request)]
    pub fn temperature_request(&self) -> (request: WriteRead)
        ensures
            request == self.spec_temperature_request(),
            request.address == self.address().value(),
            request.bytes@ == seq![0xE0u8],
            request.buffer@.len() == 2,
    {
        WriteRead {
            address: self.address.value(),
            bytes: [Command::ReadTemperatureFromRh.code()],
            buffer: [0u8, 0u8],
        }
    }

    /// What [`Si70xx::measure`] returns for each outcome of the bus access.
    pub open spec fn spec_measure<E>(&self, outcome: Result<(), E>) -> Result<(), Error<E>> {
        match outcome {
            Ok(()) => Ok(()),
            Err(error) => Err(Error::I2c(error)),
        }
    }

    /// Initiates a measurement of relative humidity and temperature.
    ///
    /// `outcome` is what the bus reported for
    /// [`measure_request`](Si70xx::measure_request). Use
    /// [`read_humidity`](Si70xx::read_humidity) and
    /// [`read_temperature`](Si70xx::read_temperature) to retrieve the
    /// measurements.
    #[verifier::when_used_as_spec(spec_measure)]
    pub fn measure<E>(&self, outcome: Result<(), E>) -> (result: Result<(), Error<E>>)
        ensures
            result == self.spec_measure(outcome),
    {
        match outcome {
            Ok(()) => Ok(()),
            Err(error) => Err(Error::I2c(error)),
        }
    }

    /// What [`Si70xx::read_humidity`] returns for each outcome of the bus
    /// access.
    pub open spec fn spec_read_humidity<E>(&self, outcome: Result<[u8; 2], E>) -> Result<
        u16,
        Error<E>,
    > {
        match outcome {
            Ok(response) => Ok(humidity_word(raw_code(response@)) as u16),
            Err(error) => Err(Error::I2c(error)),
        }
    }

    /// Retrieves the last measured relative humidity, as a percentage
    /// multiplied by 100: 4955 stands for 49.55 %.
    ///
    /// `outcome` is what the bus reported for
    /// [`humidity_request`](Si70xx::humidity_request): the filled buffer, or
    /// its error.
    #[verifier::when_used_as_spec(spec_read_humidity)]
    pub fn read_humidity<E>(&self, outcome: Result<[u8; RESPONSE_LEN], E>) -> (result: Result<
        u16,
        Error<E>,
    >)
        ensures
            result == self.spec_read_humidity(outcome),
    {
        match outcome {
            Ok(response) => Ok(humidity_from_code(code_from_response(response))),
            Err(error) => Err(Error::I2c(error)),
        }
    }

    /// What [`Si70xx::read_temperature`] returns for each outcome of the bus
    /// access.
    pub open spec fn spec_read_temperature<E>(&self, outcome: Result<[u8; 2], E>) -> Result<
        i16,
        Error<E>,
    > {
        match outcome {
            Ok(response) => Ok(temperature_centi(raw_code(response@)) as i16),
            Err(error) => Err(Error::I2c(error)),
        }
    }

    /// Retrieves the last measured temperature, in degrees Celsius multiplied
    /// by 100: 2550 stands for 25.50 °C.
    ///
    /// `outcome` is what the bus reported for
    /// [`temperature_request`](Si70xx::temperature_request): the filled
    /// buffer, or its error.
    #[verifier::when_used_as_spec(spec_read_temperature)]
    pub fn read_temperature<E>(&self, outcome: Result<[u8; RESPONSE_LEN], E>) -> (result: Result<
        i16,
        Error<E>,
    >)
        ensures
            result == self.spec_read_temperature(outcome),
    {
        match outcome {
            Ok(response) => Ok(temperature_from_code(code_from_response(response))),
            Err(error) => Err(Error::I2c(error)),
        }
    }
}

/// A driver made for a sensor with a fixed address targets 0x40 with every
/// bus access it asks for.
pub proof fn fixed_address_is_targeted()
    ensures
        Si70xx::<FixedAddress>::new().address() == Address::H40,
        Si70xx::<FixedAddress>::new().measure_request().address == 0x40,
        Si70xx::<FixedAddress>::new().humidity_request().address == 0x40,
        Si70xx::<FixedAddress>::new().temperature_request().address == 0x40,
{
}

/// A driver made for `address` targets that address, and no other, with
/// every bus access it asks for.
pub proof fn selected_address_is_targeted(address: Address)
    ensures
        Si70xx::<SelectableAddress>::new(address).address() == address,
        Si70xx::<SelectableAddress>::new(address).measure_request().address == address.value(),
        Si70xx::<SelectableAddress>::new(address).humidity_request().address == address.value(),
        Si70xx::<SelectableAddress>::new(address).temperature_request().address
            == address.value(),
{
}

/// Whatever its variant, a driver targets the one address it holds, which is
/// 0x40 or 0x41.
pub proof fn requests_share_one_address<V>(driver: Si70xx<V>)
    ensures
        driver.measure_request().address == driver.address().value(),
        driver.humidity_request().address == driver.address().value(),
        driver.temperature_request().address == driver.address().value(),
        driver.address().value() == 0x40 || driver.address().value() == 0x41,
{
}

/// A failed bus access fails the operation, and the error that the bus
/// reported comes back unchanged inside [`Error::I2c`].
pub proof fn bus_error_is_passed_on<V, E>(driver: Si70xx<V>, error: E)
    ensures
        driver.measure(Err::<(), E>(error)) == Err::<(), Error<E>>(Error::I2c(error)),
        driver.read_humidity(Err::<[u8; 2], E>(error)) == Err::<u16, Error<E>>(
            Error::I2c(error),
        ),
        driver.read_temperature(Err::<[u8; 2], E>(error)) == Err::<i16, Error<E>>(
            Error::I2c(error),
        ),
{
}

/// An operation succeeds exactly when its bus access did: the driver adds no
/// failure of its own and hides none.
pub proof fn operation_succeeds_iff_bus_does<V, E>(
    driver: Si70xx<V>,
    written: Result<(), E>,
    read: Result<[u8; 2], E>,
)
    ensures
        driver.measure(written) is Ok <==> written is Ok,
        driver.read_humidity(read) is Ok <==> read is Ok,
        driver.read_temperature(read) is Ok <==> read is Ok,
{
}

} // verus!
