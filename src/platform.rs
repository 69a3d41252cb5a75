use vstd::prelude::*;

use crate::config::{Endpoint, Hardware};
use crate::error::{chained, outcome_view, ErrorView, Failure, Report, SystemError};
use crate::ops::{Op, Progress};

verus! {

/// Where the platform stage stands: the heartbeat handshake
/// (connect, send one byte, receive one byte, close), then the module load.
#[derive(Clone, Copy, Debug, PartialEq, Eq, Structural)]
pub enum PlatformPhase {
    Connecting,
    Sending,
    Receiving,
    Closing,
    Loading,
    Finished,
}

pub struct PlatformView {
    pub endpoint: Endpoint,
    pub magic: u8,
    pub phase: PlatformPhase,
    pub error: Option<ErrorView>,
}

/// The platform stage: signals the hypervisor that the guest is up, then
/// loads the platform's kernel module.
#[derive(Debug)]
pub struct PlatformInit {
    endpoint: Endpoint,
    magic: u8,
    phase: PlatformPhase,
    error: Option<Report>,
}

pub open spec fn error_of(error: Option<Report>) -> Option<ErrorView> {
    match error {
        Some(e) => Some(e.error_view()),
        None => None,
    }
}

impl View for PlatformInit {
    type V = PlatformView;

    closed spec fn view(&self) -> PlatformView {
        PlatformView {
            endpoint: self.endpoint,
            magic: self.magic,
            phase: self.phase,
            error: error_of(self.error),
        }
    }
}

/// The failure that an unsuccessful operation of a phase stands for.
pub open spec fn phase_failure(phase: PlatformPhase) -> Failure {
    match phase {
        PlatformPhase::Connecting => Failure::ChannelConnect,
        PlatformPhase::Sending => Failure::ChannelSend,
        PlatformPhase::Receiving => Failure::ChannelReceive,
        PlatformPhase::Closing => Failure::ChannelClose,
        _ => Failure::ModuleLoad,
    }
}

/// What a phase was doing, as its failure describes it.
pub open spec fn phase_context(phase: PlatformPhase) -> Seq<char> {
    match phase {
        PlatformPhase::Connecting => "Failed to connect to socket"@,
        PlatformPhase::Sending => "Failed to send the heartbeat"@,
        PlatformPhase::Receiving => "Failed to receive the heartbeat reply"@,
        PlatformPhase::Closing => "Failed to close the heartbeat channel"@,
        _ => "Failed to insert kernel module"@,
    }
}

/// The stage after the operation of `s.phase` succeeded (`Ok`) or failed
/// with the operating system's message (`Err`). The first failure is kept,
/// described by the phase it happened in and its cause. A failed connect
/// ends the stage; a failed send or receive still closes the channel; the
/// value of the received byte plays no part.
pub open spec fn platform_next(s: PlatformView, out: Result<Seq<u8>, Seq<char>>) -> PlatformView {
    let ok = out is Ok;
    let error = match out {
        Err(cause) => if s.error is None && s.phase != PlatformPhase::Finished {
            Some(
                ErrorView {
                    failure: phase_failure(s.phase),
                    message: chained(phase_context(s.phase), cause),
                },
            )
        } else {
            s.error
        },
        Ok(_) => s.error,
    };
    let phase = match s.phase {
        PlatformPhase::Connecting => if ok {
            PlatformPhase::Sending
        } else {
            PlatformPhase::Finished
        },
        PlatformPhase::Sending => if ok {
            PlatformPhase::Receiving
        } else {
            PlatformPhase::Closing
        },
        PlatformPhase::Receiving => PlatformPhase::Closing,
        PlatformPhase::Closing => if error is None {
            PlatformPhase::Loading
        } else {
            PlatformPhase::Finished
        },
        _ => PlatformPhase::Finished,
    };
    PlatformView { phase, error, ..s }
}

/// The operation that a phase waits on; none once the stage is finished.
pub open spec fn platform_op(s: PlatformView) -> Option<Op> {
    match s.phase {
        PlatformPhase::Connecting => Some(Op::Connect(s.endpoint)),
        PlatformPhase::Sending => Some(Op::Send(s.magic)),
        PlatformPhase::Receiving => Some(Op::Receive),
        PlatformPhase::Closing => Some(Op::Close),
        PlatformPhase::Loading => Some(Op::LoadModule),
        PlatformPhase::Finished => None,
    }
}

/// `r` is what the stage in state `s` hands its caller.
pub open spec fn platform_progress(s: PlatformView, r: Progress<()>) -> bool {
    match platform_op(s) {
        Some(op) => r == Progress::<()>::Perform(op),
        None => match r {
            Progress::Perform(_) => false,
            Progress::Finished(Ok(_)) => s.error is None,
            Progress::Finished(Err(e)) => s.error == Some(e.error_view()),
        },
    }
}

/// The operations that the stage asks for after `s`, given how each one went.
pub open spec fn platform_trace(s: PlatformView, outs: Seq<Result<Seq<u8>, Seq<char>>>) -> Seq<Op>
    decreases outs.len(),
{
    if outs.len() == 0 {
        seq![]
    } else {
        let n = platform_next(s, outs[0]);
        match platform_op(n) {
            Some(op) => seq![op] + platform_trace(n, outs.drop_first()),
            None => seq![],
        }
    }
}

/// The operations that the whole stage asks for, from its start in `s`.
pub open spec fn platform_run(s: PlatformView, outs: Seq<Result<Seq<u8>, Seq<char>>>) -> Seq<Op> {
    seq![Op::Connect(s.endpoint)] + platform_trace(s, outs)
}

/// When connect, send and receive go well, the handshake writes exactly one
/// byte, the magic value, then reads exactly one byte, then closes the
/// channel. What the byte read holds plays no part.
pub proof fn lemma_heartbeat_exchange(s: PlatformView, outs: Seq<Result<Seq<u8>, Seq<char>>>)
    requires
        s.phase == PlatformPhase::Connecting,
        s.error is None,
        outs.len() >= 3,
        outs[0] is Ok,
        outs[1] is Ok,
        outs[2] is Ok,
    ensures
        platform_run(s, outs).len() >= 4,
        platform_run(s, outs).subrange(0, 4) == seq![
            Op::Connect(s.endpoint),
            Op::Send(s.magic),
            Op::Receive,
            Op::Close,
        ],
        forall|i: int|
            0 <= i < platform_run(s, outs).len() && (#[trigger] platform_run(s, outs)[i]) is Send
                ==> i == 1,
        forall|i: int|
            0 <= i < platform_run(s, outs).len() && (#[trigger] platform_run(s, outs)[i]) is Receive
                ==> i == 2,
{
    let o1 = outs.drop_first();
    let o2 = o1.drop_first();
    let o3 = o2.drop_first();
    let o4 = o3.drop_first();
    let s1 = platform_next(s, outs[0]);
    let s2 = platform_next(s1, o1[0]);
    let s3 = platform_next(s2, o2[0]);
    assert(platform_trace(s, outs) == seq![Op::Send(s.magic)] + platform_trace(s1, o1));
    assert(platform_trace(s1, o1) == seq![Op::Receive] + platform_trace(s2, o2));
    assert(platform_trace(s2, o2) == seq![Op::Close] + platform_trace(s3, o3));
    let tail = platform_trace(s3, o3);
    if o3.len() > 0 {
        let s4 = platform_next(s3, o3[0]);
        if s4.phase == PlatformPhase::Loading {
            assert(platform_trace(s3, o3) == seq![Op::LoadModule] + platform_trace(s4, o4));
            if o4.len() > 0 {
                assert(platform_next(s4, o4[0]).phase == PlatformPhase::Finished);
            }
            assert(platform_trace(s4, o4) == Seq::<Op>::empty());
        } else {
            assert(tail == Seq::<Op>::empty());
        }
    }
    let t = platform_run(s, outs);
    assert(t == seq![Op::Connect(s.endpoint), Op::Send(s.magic), Op::Receive, Op::Close] + tail);
    assert(forall|i: int| 0 <= i < tail.len() ==> tail[i] == Op::LoadModule);
    assert(t.subrange(0, 4) =~= seq![
        Op::Connect(s.endpoint),
        Op::Send(s.magic),
        Op::Receive,
        Op::Close,
    ]);
}

/// Starts the platform stage: the first operation is the connect.
pub fn init_platform(hardware: &Hardware) -> (r: (PlatformInit, Op))
    ensures
        r.0@ == (PlatformView {
            endpoint: hardware.endpoint,
            magic: hardware.magic,
            phase: PlatformPhase::Connecting,
            error: None,
        }),
        r.1 == Op::Connect(hardware.endpoint),
{
    let s = PlatformInit {
        endpoint: hardware.endpoint,
        magic: hardware.magic,
        phase: PlatformPhase::Connecting,
        error: None,
    };
    (s, Op::Connect(hardware.endpoint))
}

impl PlatformInit {
    /// Takes the outcome of the operation last asked for.
    pub fn step(&mut self, outcome: Result<Vec<u8>, SystemError>) -> (r: Progress<()>)
        ensures
            final(self)@ == platform_next(old(self)@, outcome_view(outcome)),
            platform_progress(final(self)@, r),
    {
        let phase = self.phase;
        if let Err(cause) = outcome {
            if self.error.is_none() && phase != PlatformPhase::Finished {
                let error = match phase {
                    PlatformPhase::Connecting => Report::caused_by(
                        Failure::ChannelConnect,
                        "Failed to connect to socket",
                        &cause,
                    ),
                    PlatformPhase::Sending => Report::caused_by(
                        Failure::ChannelSend,
                        "Failed to send the heartbeat",
                        &cause,
                    ),
                    PlatformPhase::Receiving => Report::caused_by(
                        Failure::ChannelReceive,
                        "Failed to receive the heartbeat reply",
                        &cause,
                    ),
                    PlatformPhase::Closing => Report::caused_by(
                        Failure::ChannelClose,
                        "Failed to close the heartbeat channel",
                        &cause,
                    ),
                    _ => Report::caused_by(
                        Failure::ModuleLoad,
                        "Failed to insert kernel module",
                        &cause,
                    ),
                };
                self.error = Some(error);
            }
            self.phase = match phase {
                PlatformPhase::Sending => PlatformPhase::Closing,
                PlatformPhase::Receiving => PlatformPhase::Closing,
                _ => PlatformPhase::Finished,
            };
        } else {
            self.phase = match phase {
                PlatformPhase::Connecting => PlatformPhase::Sending,
                PlatformPhase::Sending => PlatformPhase::Receiving,
                PlatformPhase::Receiving => PlatformPhase::Closing,
                PlatformPhase::Closing => if self.error.is_none() {
                    PlatformPhase::Loading
                } else {
                    PlatformPhase::Finished
                },
                _ => PlatformPhase::Finished,
            };
        }
        match self.phase {
            PlatformPhase::Connecting => Progress::Perform(Op::Connect(self.endpoint)),
            PlatformPhase::Sending => Progress::Perform(Op::Send(self.magic)),
            PlatformPhase::Receiving => Progress::Perform(Op::Receive),
            PlatformPhase::Closing => Progress::Perform(Op::Close),
            PlatformPhase::Loading => Progress::Perform(Op::LoadModule),
            PlatformPhase::Finished => match &self.error {
                None => Progress::Finished(Ok(())),
                Some(e) => Progress::Finished(Err(e.cloned())),
            },
        }
    }
}

} // verus!
