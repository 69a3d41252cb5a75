use enclave_init::boot::{Boot, Note};
use enclave_init::config::{standard_consoles, standard_mounts, BootConfig, Endpoint};
use enclave_init::entropy::seed_entropy;
use enclave_init::error::{Failure, SystemError};
use enclave_init::ops::{Op, Progress};
use enclave_init::platform::init_platform;

fn failed(message: &str) -> Result<Vec<u8>, SystemError> {
    Err(SystemError { message: message.to_string() })
}

/// Runs a boot to its reboot, answering each operation with `answer`;
/// returns the operations asked for and the lines logged, in order.
fn run(
    config: BootConfig,
    mut answer: impl FnMut(Op) -> Result<Vec<u8>, SystemError>,
) -> (Vec<Op>, Vec<Note>) {
    let (mut boot, mut step) = Boot::new(config);
    let mut ops = Vec::new();
    let mut notes = Vec::new();
    loop {
        notes.append(&mut step.notes);
        ops.push(step.op);
        if step.op == Op::Reboot {
            return (ops, notes);
        }
        assert!(ops.len() < 10_000, "the boot does not end");
        let outcome = answer(step.op);
        step = boot.step(outcome);
    }
}

fn device_of(size: usize) -> impl FnMut(Op) -> Result<Vec<u8>, SystemError> {
    move |op| match op {
        Op::Sample => Ok(vec![7u8; size]),
        _ => Ok(Vec::new()),
    }
}

fn count(ops: &[Op], op: Op) -> usize {
    ops.iter().filter(|o| **o == op).count()
}

#[test]
fn entropy_of_256_byte_chunks_takes_16_samples() {
    let (mut seed, first) = seed_entropy(4096);
    assert_eq!(first, Op::InitDevice);
    let mut samples = 0;
    let mut progress = seed.step(Ok(Vec::new()));
    let written = loop {
        match progress {
            Progress::Perform(Op::Sample) => {
                samples += 1;
                progress = seed.step(Ok(vec![0xAB; 256]));
            }
            Progress::Perform(Op::OpenRandom) => {
                assert_eq!(seed.sample().len(), 4096);
                progress = seed.step(Ok(Vec::new()));
            }
            Progress::Perform(Op::WriteRandom) => {
                progress = seed.step(Ok(Vec::new()));
            }
            Progress::Finished(r) => break r,
            Progress::Perform(other) => panic!("unexpected {other:?}"),
        }
    };
    assert_eq!(samples, 16);
    assert_eq!(written.ok(), Some(4096));
}

#[test]
fn short_and_long_chunks_give_exact_size() {
    let (mut seed, _) = seed_entropy(300);
    assert!(matches!(seed.step(Ok(Vec::new())), Progress::Perform(Op::Sample)));
    assert!(matches!(seed.step(Ok(vec![1; 100])), Progress::Perform(Op::Sample)));
    assert!(matches!(seed.step(Ok(Vec::new())), Progress::Perform(Op::Sample)));
    assert!(matches!(seed.step(Ok(vec![2; 256])), Progress::Perform(Op::OpenRandom)));
    let sample = seed.into_sample();
    assert_eq!(sample.len(), 300);
    assert_eq!(sample[99], 1);
    assert_eq!(sample[100], 2);
}

#[test]
fn failed_chunk_gives_error_not_short_sample() {
    let (mut seed, _) = seed_entropy(1024);
    seed.step(Ok(Vec::new()));
    seed.step(Ok(vec![9; 256]));
    match seed.step(failed("device gone")) {
        Progress::Finished(Err(e)) => {
            assert_eq!(e.kind(), Failure::DeviceSample);
            assert_eq!(e.to_string(), "Failed to get entropy from NSM device: device gone");
        }
        other => panic!("unexpected {other:?}"),
    }
    assert!(seed.sample().is_empty());
}

#[test]
fn device_init_failure_is_distinct() {
    let (mut seed, _) = seed_entropy(16);
    match seed.step(failed("no /dev/nsm")) {
        Progress::Finished(Err(e)) => {
            assert_eq!(e.kind(), Failure::DeviceInit);
            assert_eq!(e.to_string(), "Failed to connect to NSM device: no /dev/nsm");
        }
        other => panic!("unexpected {other:?}"),
    }
}

#[test]
fn seed_reports_sample_length() {
    let (mut seed, _) = seed_entropy(10);
    seed.step(Ok(Vec::new()));
    assert!(matches!(seed.step(Ok(vec![5; 256])), Progress::Perform(Op::OpenRandom)));
    assert!(matches!(seed.step(Ok(Vec::new())), Progress::Perform(Op::WriteRandom)));
    assert_eq!(seed.sample().len(), 10);
    match seed.step(Ok(Vec::new())) {
        Progress::Finished(Ok(n)) => assert_eq!(n, 10),
        other => panic!("unexpected {other:?}"),
    }
}

#[test]
fn seed_open_and_write_failures() {
    let (mut seed, _) = seed_entropy(4);
    seed.step(Ok(Vec::new()));
    seed.step(Ok(vec![1, 2, 3, 4]));
    match seed.step(failed("EACCES")) {
        Progress::Finished(Err(e)) => {
            assert_eq!(e.kind(), Failure::SeedOpen);
            assert_eq!(e.to_string(), "Failed to open /dev/urandom: EACCES");
        }
        other => panic!("unexpected {other:?}"),
    }
    let (mut seed, _) = seed_entropy(4);
    seed.step(Ok(Vec::new()));
    seed.step(Ok(vec![1, 2, 3, 4]));
    seed.step(Ok(Vec::new()));
    match seed.step(failed("EIO")) {
        Progress::Finished(Err(e)) => {
            assert_eq!(e.kind(), Failure::SeedWrite);
            assert_eq!(e.to_string(), "Failed to write to /dev/urandom: EIO");
        }
        other => panic!("unexpected {other:?}"),
    }
}

#[test]
fn zero_size_sample_skips_sampling() {
    let (mut seed, _) = seed_entropy(0);
    assert!(matches!(seed.step(Ok(Vec::new())), Progress::Perform(Op::OpenRandom)));
}

#[test]
fn heartbeat_sends_and_receives_one_byte() {
    let hw = enclave_init::config::nitro_hardware();
    let (mut p, first) = init_platform(&hw);
    assert_eq!(first, Op::Connect(Endpoint { family: 40, port: 9000, cid: 3 }));
    assert!(matches!(p.step(Ok(Vec::new())), Progress::Perform(Op::Send(0xB7))));
    assert!(matches!(p.step(Ok(Vec::new())), Progress::Perform(Op::Receive)));
    // the byte echoed back is not checked
    assert!(matches!(p.step(Ok(vec![0x00])), Progress::Perform(Op::Close)));
    assert!(matches!(p.step(Ok(Vec::new())), Progress::Perform(Op::LoadModule)));
    assert!(matches!(p.step(Ok(Vec::new())), Progress::Finished(Ok(()))));
}

#[test]
fn heartbeat_receive_failure_still_closes() {
    let hw = enclave_init::config::nitro_hardware();
    let (mut p, _) = init_platform(&hw);
    p.step(Ok(Vec::new()));
    p.step(Ok(Vec::new()));
    assert!(matches!(p.step(failed("reset")), Progress::Perform(Op::Close)));
    match p.step(Ok(Vec::new())) {
        Progress::Finished(Err(e)) => {
            assert_eq!(e.kind(), Failure::ChannelReceive);
            assert_eq!(e.to_string(), "Failed to receive the heartbeat reply: reset");
        }
        other => panic!("unexpected {other:?}"),
    }
}

#[test]
fn heartbeat_send_failure_and_module_failure() {
    let hw = enclave_init::config::nitro_hardware();
    let (mut p, _) = init_platform(&hw);
    p.step(Ok(Vec::new()));
    assert!(matches!(p.step(failed("pipe")), Progress::Perform(Op::Close)));
    match p.step(failed("close")) {
        Progress::Finished(Err(e)) => assert_eq!(e.kind(), Failure::ChannelSend),
        other => panic!("unexpected {other:?}"),
    }
    let (mut p, _) = init_platform(&hw);
    p.step(Ok(Vec::new()));
    p.step(Ok(Vec::new()));
    p.step(Ok(vec![0xB7]));
    p.step(Ok(Vec::new()));
    match p.step(failed("no such file")) {
        Progress::Finished(Err(e)) => {
            assert_eq!(e.kind(), Failure::ModuleLoad);
            assert_eq!(e.to_string(), "Failed to insert kernel module: no such file");
        }
        other => panic!("unexpected {other:?}"),
    }
}

#[test]
fn release_refused_attestation_reboots_once_without_entropy() {
    let (ops, notes) = run(BootConfig::standard(true, true), |op| match op {
        Op::Connect(_) => failed("Connection refused"),
        _ => Ok(Vec::new()),
    });
    assert_eq!(count(&ops, Op::Reboot), 1);
    assert_eq!(*ops.last().unwrap(), Op::Reboot);
    assert_eq!(count(&ops, Op::InitDevice), 0);
    assert_eq!(count(&ops, Op::Sample), 0);
    let last_two: Vec<String> = notes[notes.len() - 2..].iter().map(|n| n.text()).collect();
    assert_eq!(
        last_two,
        vec![
            "Error when initializing AWS functionality: Failed to connect to socket: Connection refused"
                .to_string(),
            "Unable to recover from above system error, rebooting".to_string(),
        ]
    );
    assert!(notes.iter().all(|n| !matches!(n, Note::Booted)));
}

#[test]
fn debug_refused_attestation_goes_on_to_entropy() {
    let mut device = device_of(256);
    let (ops, notes) = run(BootConfig::standard(true, false), move |op| match op {
        Op::Connect(_) => failed("Connection refused"),
        other => device(other),
    });
    assert_eq!(count(&ops, Op::Sample), 16);
    assert_eq!(count(&ops, Op::Reboot), 1);
    assert!(matches!(notes.last(), Some(Note::Booted)));
}

#[test]
fn successful_boot_logs_booted_once_before_reboot() {
    let (ops, notes) = run(BootConfig::standard(true, true), device_of(256));
    let expected_start = vec![
        Op::Mount(0),
        Op::Mount(1),
        Op::Mount(2),
        Op::Mount(3),
        Op::Mount(4),
        Op::Mount(5),
        Op::Mount(6),
        Op::Mount(7),
        Op::Reopen(0),
        Op::Reopen(1),
        Op::Reopen(2),
        Op::Connect(Endpoint { family: 40, port: 9000, cid: 3 }),
        Op::Send(0xB7),
        Op::Receive,
        Op::Close,
        Op::LoadModule,
        Op::InitDevice,
    ];
    assert_eq!(ops[..expected_start.len()].to_vec(), expected_start);
    assert_eq!(count(&ops, Op::Sample), 16);
    assert_eq!(ops[ops.len() - 3..].to_vec(), vec![Op::OpenRandom, Op::WriteRandom, Op::Reboot]);
    assert_eq!(count(&ops, Op::Reboot), 1);
    let booted = notes.iter().filter(|n| matches!(n, Note::Booted)).count();
    assert_eq!(booted, 1);
    assert_eq!(notes.last().unwrap().text(), "EnclaveOS Booted");
    let seeded: Vec<String> =
        notes.iter().filter(|n| matches!(n, Note::Seeded(_))).map(|n| n.text()).collect();
    assert_eq!(seeded, vec!["Seeded kernel with entropy: 4096".to_string()]);
    assert_eq!(notes[0].text(), "Mounted /dev");
    assert!(notes[..notes.len() - 1].iter().all(|n| !n.is_error() && n.failure().is_none()));
    assert!(notes.last().unwrap().is_error());
}

#[test]
fn every_mount_is_tried_when_all_fail() {
    let (ops, notes) = run(BootConfig::standard(false, true), |op| match op {
        Op::Mount(_) => failed("Device or resource busy"),
        _ => Ok(Vec::new()),
    });
    for i in 0..8 {
        assert_eq!(count(&ops, Op::Mount(i)), 1);
    }
    let failures: Vec<String> =
        notes.iter().filter(|n| matches!(n, Note::MountFailed { .. })).map(|n| n.text()).collect();
    assert_eq!(failures.len(), 8);
    assert_eq!(failures[3], "Unable to mount /proc (Device or resource busy)");
    assert!(notes.iter().all(|n| !matches!(n, Note::Unrecoverable)));
    assert!(matches!(notes.last(), Some(Note::Booted)));
}

#[test]
fn every_console_stream_is_tried_when_one_fails() {
    let (ops, notes) = run(BootConfig::standard(false, true), |op| match op {
        Op::Reopen(0) => failed("No such device"),
        _ => Ok(Vec::new()),
    });
    assert_eq!(count(&ops, Op::Reopen(1)), 1);
    assert_eq!(count(&ops, Op::Reopen(2)), 1);
    let failures: Vec<String> =
        notes.iter().filter(|n| n.failure().is_some()).map(|n| n.text()).collect();
    assert_eq!(notes.iter().filter_map(|n| n.failure()).collect::<Vec<_>>(), vec![Failure::ConsoleOpen]);
    assert_eq!(failures, vec!["Unable to open /dev/console (No such device)".to_string()]);
}

#[test]
fn second_boot_on_mounted_kernel_does_not_panic() {
    for release in [false, true] {
        let (ops, notes) = run(BootConfig::standard(true, release), |op| match op {
            Op::Mount(_) => failed("Device or resource busy"),
            Op::Sample => Ok(vec![3; 256]),
            _ => Ok(Vec::new()),
        });
        assert_eq!(count(&ops, Op::Reboot), 1);
        assert_eq!(count(&ops, Op::Sample), 16);
        assert!(matches!(notes.last(), Some(Note::Booted)));
    }
}

#[test]
fn release_entropy_failure_is_fatal() {
    let (ops, notes) = run(BootConfig::standard(true, true), |op| match op {
        Op::Sample => failed("busy"),
        _ => Ok(Vec::new()),
    });
    assert_eq!(count(&ops, Op::Sample), 1);
    assert_eq!(count(&ops, Op::OpenRandom), 0);
    assert_eq!(
        notes[notes.len() - 2].text(),
        "Unable to seed kernel with entropy: Failed to get entropy from NSM device: busy"
    );
    assert!(matches!(notes.last(), Some(Note::Unrecoverable)));
}

#[test]
fn no_hardware_skips_attestation_and_entropy() {
    let (ops, notes) = run(BootConfig::standard(false, true), |_| Ok(Vec::new()));
    assert_eq!(ops.len(), 12);
    assert_eq!(*ops.last().unwrap(), Op::Reboot);
    assert!(matches!(notes.last(), Some(Note::Booted)));
}

#[test]
fn empty_lists_go_straight_on() {
    let config = BootConfig { mounts: Vec::new(), consoles: Vec::new(), hardware: None, release: true };
    let (boot, step) = Boot::new(config);
    drop(boot);
    assert_eq!(step.op, Op::Reboot);
    assert_eq!(step.notes.len(), 1);
    assert_eq!(step.notes[0].text(), "EnclaveOS Booted");
}

#[test]
fn standard_lists() {
    let mounts = standard_mounts();
    let targets: Vec<&str> = mounts.iter().map(|m| m.target.as_str()).collect();
    assert_eq!(
        targets,
        vec!["/dev", "/dev/pts", "/dev/shm", "/proc", "/run", "/tmp", "/sys", "/sys/fs/cgroup"]
    );
    assert_eq!(mounts[3].data, "hidepid=2");
    assert_eq!(mounts[0].flags.bits(), 2 | 8);
    assert_eq!(mounts[2].flags.bits(), 2 | 4 | 8);
    let consoles = standard_consoles();
    let modes: Vec<(&str, i32)> = consoles.iter().map(|c| (c.mode.as_str(), c.stream)).collect();
    assert_eq!(modes, vec![("r", 0), ("w", 1), ("w", 2)]);
}
