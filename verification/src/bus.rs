//! The abstract two-wire bus transport and delay capabilities the
//! driver is built over.

use vstd::prelude::*;

verus! {

/// One transaction on the two-wire bus, as the driver's contracts
/// describe it.
pub enum BusEvent {
    /// The given bytes were written to the peripheral at `address` in
    /// one transaction.
    WriteTo { address: u8, bytes: Seq<u8> },
    /// The given bytes were read from the peripheral at `address` in
    /// one transaction.
    ReadFrom { address: u8, bytes: Seq<u8> },
}

/// The two-wire bus transport capability.
///
/// The caller supplies an implementation at construction time,
/// typically an adapter over a platform's bus peripheral.
/// [`I2cBus::history`] is the abstraction the methods are specified
/// against: the sequence of transactions issued through this handle,
/// oldest first. Implementations are outside this library and are not
/// verified; the driver's contracts hold of any implementation that
/// honours the method contracts below. A failed transaction leaves no
/// trace on the bus: the transport either transfers the whole frame or
/// aborts it.
pub trait I2cBus {
    /// The transport's own error type. The driver surfaces it
    /// verbatim and adds no variants of its own.
    type BusError;

    /// The bus transactions issued through this handle so far,
    /// oldest first. The default body only spares unverified
    /// implementations from providing this ghost abstraction; on a
    /// type parameter bounded by this trait it stays abstract.
    open spec fn history(&self) -> Seq<BusEvent> {
        Seq::empty()
    }

    /// Write `bytes` to the peripheral at `address` in one
    /// transaction.
    fn write(&mut self, address: u8, bytes: &[u8]) -> (r: Result<(), Self::BusError>)
        ensures
            r is Ok ==> final(self).history() == old(self).history().push(
                BusEvent::WriteTo { address: address, bytes: bytes@ },
            ),
            r is Err ==> final(self).history() == old(self).history(),
    ;

    /// Read exactly three bytes from the peripheral at `address` in
    /// one transaction.
    fn read_three(&mut self, address: u8) -> (r: Result<[u8; 3], Self::BusError>)
        ensures
            r matches Ok(buf) ==> final(self).history() == old(self).history().push(
                BusEvent::ReadFrom { address: address, bytes: buf@ },
            ),
            r is Err ==> final(self).history() == old(self).history(),
    ;
}

/// A blocking millisecond-delay capability. The driver takes one at
/// construction time for future timing needs; no current operation
/// invokes it.
pub trait DelayMillis {
    /// Pause the calling thread for `ms` milliseconds.
    fn delay_ms(&mut self, ms: u8);
}

} // verus!
