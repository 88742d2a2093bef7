use vstd::prelude::*;

verus! {

/// The transport capability the driver consumes: writing a byte
/// sequence to a device address as one transaction.
///
/// `written` is the history of completed transactions, oldest first.
/// A successful `write` appends exactly one entry and a failed one
/// appends none, so a contract over `written` pins down which
/// transactions a call put on the wire and in what order.
pub trait Bus {
    /// Fault the transport reports for a failed write.
    type Fault;

    /// Transactions completed so far: the device address and the bytes
    /// sent, for each, oldest first.
    spec fn written(&self) -> Seq<(u8, Seq<u8>)>;

    /// Write `data` to the device at `address` as one transaction.
    fn write(&mut self, address: u8, data: &[u8]) -> (r: Result<(), Self::Fault>)
        ensures
            (match r {
                Ok(_) => final(self).written() == old(self).written().push((address, data@)),
                Err(_) => final(self).written() == old(self).written(),
            }),
    ;
}

} // verus!
