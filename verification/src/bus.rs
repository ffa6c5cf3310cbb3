//! The contracts expected of the driver's two collaborators: the bus
//! transport and the delay provider. The driver implements neither; the
//! platform supplies both, and the session's own contracts are stated over
//! the abstract transaction logs declared here.

use vstd::prelude::*;

verus! {

/// One bus transaction, as the session's contracts record it.
pub enum BusOp {
    /// A write of `data` to the device at `address`.
    Write { address: u8, data: Seq<u8> },
    /// A completed read from the device at `address` that returned `data`.
    Read { address: u8, data: Seq<u8> },
}

/// A log of bus transactions, oldest first.
pub type BusLog = Seq<BusOp>;

/// A log of requested waits in milliseconds, oldest first.
pub type WaitLog = Seq<u8>;

/// The written transaction `address <- data`.
pub open spec fn bus_write(address: u8, data: Seq<u8>) -> BusOp {
    BusOp::Write { address, data }
}

/// The completed read transaction `address -> data`.
pub open spec fn bus_read(address: u8, data: Seq<u8>) -> BusOp {
    BusOp::Read { address, data }
}

/// The bus transport collaborator: a capability to write a byte sequence to
/// a device address and to read a byte sequence back, fallible either way.
///
/// An implementation keeps, as its abstract `history`, the log of attempted
/// writes and completed reads: a write is recorded whether or not it
/// succeeds (the bytes handed over are known either way); a read is recorded
/// only when it fills the whole buffer and reports success, since a failed
/// read delivers nothing.
pub trait I2cBus: Sized {
    /// The transport's own error type, surfaced by the driver unmodified.
    type BusError;

    /// The log of attempted writes and completed reads, oldest first.
    spec fn history(&self) -> BusLog;

    /// Write `bytes` to the device at `address`.
    fn write(&mut self, address: u8, bytes: &Vec<u8>) -> (r: Result<(), Self::BusError>)
        ensures
            final(self).history() == old(self).history().push(bus_write(address, bytes@)),
    ;

    /// Read exactly `buffer.len()` bytes from the device at `address` into
    /// `buffer`: the buffer is filled fully, or the read fails.
    fn read(&mut self, address: u8, buffer: &mut Vec<u8>) -> (r: Result<(), Self::BusError>)
        ensures
            r is Ok ==> final(buffer)@.len() == old(buffer)@.len() && final(self).history() == old(
                self,
            ).history().push(bus_read(address, final(buffer)@)),
            r is Err ==> final(self).history() == old(self).history(),
    ;
}

/// The delay collaborator: blocks the calling thread for at least the given
/// number of milliseconds. An implementation keeps, as its abstract
/// `waited`, the log of the waits requested of it, oldest first.
pub trait DelayMs: Sized {
    /// The log of requested waits, in milliseconds.
    spec fn waited(&self) -> WaitLog;

    /// Block the calling thread for at least `ms` milliseconds.
    fn delay_ms(&mut self, ms: u8)
        ensures
            final(self).waited() == old(self).waited().push(ms),
    ;
}

} // verus!
