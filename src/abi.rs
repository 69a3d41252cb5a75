use vstd::prelude::*;

verus! {

/// Relies on libc::MS_NOSUID: the mount flag that ignores set-user-ID bits (0x02 on Linux).
#[verifier::external_body]
pub(crate) fn ms_nosuid() -> (r: u64)
    ensures
        r == 2,
{
    libc::MS_NOSUID
}

/// Relies on libc::MS_NODEV: the mount flag that forbids device nodes (0x04 on Linux).
#[verifier::external_body]
pub(crate) fn ms_nodev() -> (r: u64)
    ensures
        r == 4,
{
    libc::MS_NODEV
}

/// Relies on libc::MS_NOEXEC: the mount flag that forbids executing binaries (0x08 on Linux).
#[verifier::external_body]
pub(crate) fn ms_noexec() -> (r: u64)
    ensures
        r == 8,
{
    libc::MS_NOEXEC
}

/// Relies on libc::AF_VSOCK: the address family of virtual sockets (40 on Linux).
#[verifier::external_body]
pub(crate) fn af_vsock() -> (r: u16)
    ensures
        r == 40,
{
    libc::AF_VSOCK as u16
}

} // verus!
