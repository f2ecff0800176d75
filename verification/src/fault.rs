//! Accesses that break the bus protocol.
use vstd::prelude::*;

verus! {

/// An access that the hardware protocol forbids or that nothing answers.
/// The operation that meets one stops there and hands it to the caller, who
/// decides whether to halt.
#[derive(Clone, Copy, PartialEq, Eq, Structural, Debug)]
pub enum Fault {
    /// A write-only register was read. The address is that of the
    /// register's first image on the bus.
    WriteOnlyRead { addr: u16 },
    /// A read-only register was written. The address is that of the
    /// register's first image on the bus.
    ReadOnlyWrite { addr: u16 },
    /// ROM was written: program ROM at a bus address from 0x8000 on, or
    /// graphics ROM at a video address below 0x2000.
    RomWrite { addr: u16 },
    /// A register without an implementation was written. The address is
    /// that of the register's first image on the bus.
    Unimplemented { addr: u16 },
    /// A video address with nothing behind it was accessed through the
    /// data register of the video unit.
    VideoUnmapped { addr: u16 },
}

} // verus!
