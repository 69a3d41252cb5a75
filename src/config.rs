use vstd::prelude::*;

use crate::abi::{af_vsock, ms_nodev, ms_noexec, ms_nosuid};

verus! {

/// Which of the restricting mount flags a mount carries.
#[derive(Clone, Copy, Debug, PartialEq, Eq, Structural)]
pub struct MountFlags {
    pub nodev: bool,
    pub nosuid: bool,
    pub noexec: bool,
}

pub open spec fn flag_bit(set: bool, bit: u64) -> u64 {
    if set {
        bit
    } else {
        0
    }
}

impl MountFlags {
    /// The flags as the bit set that `mount(2)` takes.
    pub open spec fn spec_bits(self) -> u64 {
        (flag_bit(self.nosuid, 2) + flag_bit(self.nodev, 4) + flag_bit(self.noexec, 8)) as u64
    }

    pub fn bits(&self) -> (r: u64)
        ensures
            r == self.spec_bits(),
    {
        let mut r: u64 = 0;
        if self.nosuid {
            r = r + ms_nosuid();
        }
        if self.nodev {
            r = r + ms_nodev();
        }
        if self.noexec {
            r = r + ms_noexec();
        }
        r
    }
}

/// One filesystem to mount at boot.
#[derive(Clone, Debug)]
pub struct MountSpec {
    pub source: String,
    pub target: String,
    pub fstype: String,
    pub flags: MountFlags,
    pub data: String,
}

/// One standard stream to bind to a device.
#[derive(Clone, Debug)]
pub struct ConsoleSpec {
    pub path: String,
    pub mode: String,
    pub stream: i32,
}

/// Where the hypervisor listens for the heartbeat.
#[derive(Clone, Copy, Debug, PartialEq, Eq, Structural)]
pub struct Endpoint {
    pub family: u16,
    pub port: u32,
    pub cid: u32,
}

/// What a platform with hardware attestation and entropy needs.
#[derive(Clone, Debug)]
pub struct Hardware {
    pub endpoint: Endpoint,
    pub magic: u8,
    pub module: String,
    pub entropy_size: usize,
}

/// Everything a boot runs from.
#[derive(Clone, Debug)]
pub struct BootConfig {
    pub mounts: Vec<MountSpec>,
    pub consoles: Vec<ConsoleSpec>,
    pub hardware: Option<Hardware>,
    /// A failed critical stage reboots at once when set, and is only logged otherwise.
    pub release: bool,
}

/// No mount may allow set-user-ID or executing binaries, and only the
/// device filesystems may hold device nodes.
pub open spec fn least_privilege(m: MountSpec) -> bool {
    &&& m.flags.nosuid
    &&& m.flags.noexec
    &&& (m.flags.nodev || m.target@ == "/dev"@ || m.target@ == "/dev/pts"@)
}

pub open spec fn mount_is(
    m: MountSpec,
    source: Seq<char>,
    target: Seq<char>,
    fstype: Seq<char>,
    nodev: bool,
    data: Seq<char>,
) -> bool {
    &&& m.source@ == source
    &&& m.target@ == target
    &&& m.fstype@ == fstype
    &&& m.flags == MountFlags { nodev, nosuid: true, noexec: true }
    &&& m.data@ == data
}

fn mount_spec(source: &str, target: &str, fstype: &str, nodev: bool, data: &str) -> (r: MountSpec)
    ensures
        mount_is(r, source@, target@, fstype@, nodev, data@),
{
    MountSpec {
        source: String::from_str(source),
        target: String::from_str(target),
        fstype: String::from_str(fstype),
        flags: MountFlags { nodev, nosuid: true, noexec: true },
        data: String::from_str(data),
    }
}

/// The filesystems of a guest, in the order in which they are mounted, each
/// with the least privilege that its purpose allows.
pub open spec fn is_standard_mounts(r: Seq<MountSpec>) -> bool {
    &&& r.len() == 8
    &&& mount_is(r[0], "devtmpfs"@, "/dev"@, "devtmpfs"@, false, "mode=0755"@)
    &&& mount_is(r[1], "devpts"@, "/dev/pts"@, "devpts"@, false, ""@)
    &&& mount_is(r[2], "shm"@, "/dev/shm"@, "tmpfs"@, true, "mode=0755"@)
    &&& mount_is(r[3], "proc"@, "/proc"@, "proc"@, true, "hidepid=2"@)
    &&& mount_is(r[4], "tmpfs"@, "/run"@, "tmpfs"@, true, "mode=0755"@)
    &&& mount_is(r[5], "tmpfs"@, "/tmp"@, "tmpfs"@, true, ""@)
    &&& mount_is(r[6], "sysfs"@, "/sys"@, "sysfs"@, true, ""@)
    &&& mount_is(r[7], "cgroup_root"@, "/sys/fs/cgroup"@, "tmpfs"@, true, "mode=0755"@)
    &&& forall|i: int| 0 <= i < r.len() ==> least_privilege(#[trigger] r[i])
}

/// The filesystems of a guest, in the order in which they are mounted.
pub fn standard_mounts() -> (r: Vec<MountSpec>)
    ensures
        is_standard_mounts(r@),
{
    let mut r: Vec<MountSpec> = Vec::new();
    r.push(mount_spec("devtmpfs", "/dev", "devtmpfs", false, "mode=0755"));
    r.push(mount_spec("devpts", "/dev/pts", "devpts", false, ""));
    r.push(mount_spec("shm", "/dev/shm", "tmpfs", true, "mode=0755"));
    r.push(mount_spec("proc", "/proc", "proc", true, "hidepid=2"));
    r.push(mount_spec("tmpfs", "/run", "tmpfs", true, "mode=0755"));
    r.push(mount_spec("tmpfs", "/tmp", "tmpfs", true, ""));
    r.push(mount_spec("sysfs", "/sys", "sysfs", true, ""));
    r.push(mount_spec("cgroup_root", "/sys/fs/cgroup", "tmpfs", true, "mode=0755"));
    r
}

pub open spec fn console_is(c: ConsoleSpec, mode: Seq<char>, stream: i32) -> bool {
    &&& c.path@ == "/dev/console"@
    &&& c.mode@ == mode
    &&& c.stream == stream
}

fn console_spec(mode: &str, stream: i32) -> (r: ConsoleSpec)
    ensures
        r.path@ == "/dev/console"@,
        r.mode@ == mode@,
        r.stream == stream,
{
    ConsoleSpec { path: String::from_str("/dev/console"), mode: String::from_str(mode), stream }
}

/// Standard input read from the console, output and error written to it.
pub open spec fn is_standard_consoles(r: Seq<ConsoleSpec>) -> bool {
    &&& r.len() == 3
    &&& console_is(r[0], "r"@, 0)
    &&& console_is(r[1], "w"@, 1)
    &&& console_is(r[2], "w"@, 2)
}

/// Standard input, output and error, all on the console.
pub fn standard_consoles() -> (r: Vec<ConsoleSpec>)
    ensures
        is_standard_consoles(r@),
{
    let mut r: Vec<ConsoleSpec> = Vec::new();
    r.push(console_spec("r", 0));
    r.push(console_spec("w", 1));
    r.push(console_spec("w", 2));
    r
}

/// The heartbeat byte that the Nitro hypervisor expects.
pub const NITRO_MAGIC: u8 = 0xB7;

/// The vsock port on which the Nitro hypervisor listens.
pub const NITRO_PORT: u32 = 9000;

/// The context identifier of the Nitro hypervisor.
pub const NITRO_CID: u32 = 3;

/// The number of entropy bytes that a Nitro guest seeds its kernel with.
pub const SEED_SIZE: usize = 4096;

/// The hypervisor endpoint, heartbeat byte, kernel module and entropy size
/// of an AWS Nitro enclave.
pub open spec fn is_nitro_hardware(h: Hardware) -> bool {
    &&& h.endpoint == (Endpoint { family: 40, port: 9000, cid: 3 })
    &&& h.magic == 0xB7
    &&& h.module@ == "/nsm.ko"@
    &&& h.entropy_size == 4096
}

/// An AWS Nitro enclave.
pub fn nitro_hardware() -> (r: Hardware)
    ensures
        is_nitro_hardware(r),
{
    Hardware {
        endpoint: Endpoint { family: af_vsock(), port: NITRO_PORT, cid: NITRO_CID },
        magic: NITRO_MAGIC,
        module: String::from_str("/nsm.ko"),
        entropy_size: SEED_SIZE,
    }
}

impl BootConfig {
    /// The standard mounts and consoles, with or without Nitro hardware.
    pub fn standard(nitro: bool, release: bool) -> (r: BootConfig)
        ensures
            is_standard_mounts(r.mounts@),
            is_standard_consoles(r.consoles@),
            match r.hardware {
                Some(h) => nitro && is_nitro_hardware(h),
                None => !nitro,
            },
            r.release == release,
    {
        let hardware = if nitro {
            Some(nitro_hardware())
        } else {
            None
        };
        BootConfig {
            mounts: standard_mounts(),
            consoles: standard_consoles(),
            hardware,
            release,
        }
    }
}

} // verus!
