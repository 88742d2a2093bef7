use vstd::prelude::*;

verus! {

/// Failures an operation of the driver can report.
///
/// `Address` is raised before any bus traffic when an argument is out of the
/// chip's range; `I2c` wraps a transport fault reported by the bus. `Conn`
/// and `Port` are reserved categories that no current operation raises.
#[derive(Debug)]
pub enum Error<I> {
    /// The bus transport reported a failure.
    I2c(I),
    /// Device not found on the bus (reserved, currently never raised).
    Conn,
    /// A channel index or payload length is out of the chip's range.
    Address,
    /// Invalid port (reserved, currently never raised).
    Port,
}

impl<I> From<I> for Error<I> {
    fn from(error: I) -> (r: Self)
        ensures
            r == Error::I2c(error),
    {
        Error::I2c(error)
    }
}

impl<I> vstd::std_specs::convert::FromSpecImpl<I> for Error<I> {
    open spec fn obeys_from_spec() -> bool {
        true
    }

    open spec fn from_spec(t: I) -> Self {
        Error::I2c(t)
    }
}

} // verus!
