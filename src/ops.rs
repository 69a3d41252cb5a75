use vstd::prelude::*;

use crate::config::Endpoint;
use crate::error::Report;

verus! {

/// An operation that the boot logic asks its caller to perform; the caller
/// reports back how it went.
#[derive(Clone, Copy, Debug, PartialEq, Eq, Structural)]
pub enum Op {
    /// Mount the filesystem at this index of the mount list.
    Mount(usize),
    /// Rebind the standard stream at this index of the console list.
    Reopen(usize),
    /// Open a stream channel to the endpoint.
    Connect(Endpoint),
    /// Write this one byte to the channel.
    Send(u8),
    /// Read one byte from the channel.
    Receive,
    /// Close the channel.
    Close,
    /// Insert the platform's kernel module.
    LoadModule,
    /// Open the entropy device.
    InitDevice,
    /// Ask the entropy device for one chunk of random bytes.
    Sample,
    /// Open the kernel's randomness file for reading and writing.
    OpenRandom,
    /// Write the whole sample to the kernel's randomness file.
    WriteRandom,
    /// Reboot the machine.
    Reboot,
}

/// What a stage asks for next: one more operation, or its result.
#[derive(Debug)]
pub enum Progress<T> {
    Perform(Op),
    Finished(Result<T, Report>),
}

} // verus!
