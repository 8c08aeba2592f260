//! What can go wrong.

use vstd::prelude::*;

verus! {

/// Failure of a driver operation.
///
/// The driver never fails on its own account: the one thing that can go wrong
/// is the bus access, and the error that the bus reported is carried along
/// untouched.
#[derive(Debug, PartialEq, Eq)]
pub enum Error<E> {
    /// Error on the I²C bus.
    I2c(E),
}

} // verus!
