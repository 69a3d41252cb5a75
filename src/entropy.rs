use vstd::prelude::*;

use crate::error::{chained, outcome_view, ErrorView, Failure, Report, SystemError};
use crate::ops::{Op, Progress};

verus! {

/// Where the entropy stage stands.
#[derive(Clone, Copy, Debug, PartialEq, Eq, Structural)]
pub enum SeedPhase {
    /// Waiting for the entropy device to open.
    Opening,
    /// Collecting chunks from the device.
    Sampling,
    /// Waiting for the kernel's randomness file to open.
    OpeningRandom,
    /// Waiting for the sample to be written.
    Writing,
    Finished,
}

pub struct SeedView {
    pub target: nat,
    pub phase: SeedPhase,
    pub sample: Seq<u8>,
    pub error: Option<ErrorView>,
}

/// The entropy stage: gathers exactly `target` bytes from the entropy device,
/// then writes them into the kernel's randomness pool.
#[derive(Debug)]
pub struct SeedEntropy {
    target: usize,
    phase: SeedPhase,
    sample: Vec<u8>,
    error: Option<Report>,
}

impl View for SeedEntropy {
    type V = SeedView;

    closed spec fn view(&self) -> SeedView {
        SeedView {
            target: self.target as nat,
            phase: self.phase,
            sample: self.sample@,
            error: match self.error {
                Some(e) => Some(e.error_view()),
                None => None,
            },
        }
    }
}

pub open spec fn min(a: int, b: int) -> int {
    if a < b {
        a
    } else {
        b
    }
}

/// The error of a failed operation: its kind, what was being done, and the
/// operating system's message.
pub open spec fn failed_with(failure: Failure, what: Seq<char>, cause: Seq<char>) -> Option<ErrorView> {
    Some(ErrorView { failure, message: chained(what, cause) })
}

/// The stage after the operation of `s.phase` yielded `out`: `Ok` with the
/// bytes it read, or `Err` with the operating system's message. Bytes beyond
/// the target are dropped; a failed chunk drops the whole sample.
pub open spec fn seed_next(s: SeedView, out: Result<Seq<u8>, Seq<char>>) -> SeedView {
    match s.phase {
        SeedPhase::Opening => match out {
            Ok(_) => SeedView {
                phase: if s.target == 0 {
                    SeedPhase::OpeningRandom
                } else {
                    SeedPhase::Sampling
                },
                ..s
            },
            Err(cause) => SeedView {
                phase: SeedPhase::Finished,
                error: failed_with(Failure::DeviceInit, "Failed to connect to NSM device"@, cause),
                ..s
            },
        },
        SeedPhase::Sampling => match out {
            Ok(chunk) => {
                let sample = s.sample + chunk.take(min(chunk.len() as int, s.target - s.sample.len()));
                SeedView {
                    phase: if sample.len() == s.target {
                        SeedPhase::OpeningRandom
                    } else {
                        SeedPhase::Sampling
                    },
                    sample,
                    ..s
                }
            },
            Err(cause) => SeedView {
                phase: SeedPhase::Finished,
                sample: Seq::empty(),
                error: failed_with(Failure::DeviceSample, "Failed to get entropy from NSM device"@, cause),
                ..s
            },
        },
        SeedPhase::OpeningRandom => match out {
            Ok(_) => SeedView { phase: SeedPhase::Writing, ..s },
            Err(cause) => SeedView {
                phase: SeedPhase::Finished,
                error: failed_with(Failure::SeedOpen, "Failed to open /dev/urandom"@, cause),
                ..s
            },
        },
        SeedPhase::Writing => match out {
            Ok(_) => SeedView { phase: SeedPhase::Finished, ..s },
            Err(cause) => SeedView {
                phase: SeedPhase::Finished,
                error: failed_with(Failure::SeedWrite, "Failed to write to /dev/urandom"@, cause),
                ..s
            },
        },
        SeedPhase::Finished => s,
    }
}

/// The operation that a phase waits on; none once the stage is finished.
pub open spec fn seed_op(s: SeedView) -> Option<Op> {
    match s.phase {
        SeedPhase::Opening => Some(Op::InitDevice),
        SeedPhase::Sampling => Some(Op::Sample),
        SeedPhase::OpeningRandom => Some(Op::OpenRandom),
        SeedPhase::Writing => Some(Op::WriteRandom),
        SeedPhase::Finished => None,
    }
}

/// `r` is what the stage in state `s` hands its caller: once finished, the
/// number of bytes seeded, or the failure.
pub open spec fn seed_progress(s: SeedView, r: Progress<usize>) -> bool {
    match seed_op(s) {
        Some(op) => r == Progress::<usize>::Perform(op),
        None => match r {
            Progress::Perform(_) => false,
            Progress::Finished(Ok(n)) => s.error is None && n == s.sample.len(),
            Progress::Finished(Err(e)) => s.error == Some(e.error_view()),
        },
    }
}

/// The states that the stage can reach: the sample never outgrows the
/// target, it is complete from the moment sampling ends, and a stage that
/// failed has ended.
pub open spec fn seed_wf(s: SeedView) -> bool {
    &&& s.sample.len() <= s.target
    &&& s.phase == SeedPhase::Opening ==> s.sample.len() == 0
    &&& s.phase == SeedPhase::Sampling ==> s.sample.len() < s.target
    &&& (s.phase == SeedPhase::OpeningRandom || s.phase == SeedPhase::Writing || (s.phase
        == SeedPhase::Finished && s.error is None)) ==> s.sample.len() == s.target
    &&& s.error is Some ==> s.phase == SeedPhase::Finished
}

/// Starts the entropy stage for a sample of `size` bytes: the first
/// operation opens the entropy device.
pub fn seed_entropy(size: usize) -> (r: (SeedEntropy, Op))
    ensures
        r.0@ == (SeedView {
            target: size as nat,
            phase: SeedPhase::Opening,
            sample: Seq::empty(),
            error: None,
        }),
        seed_wf(r.0@),
        r.1 == Op::InitDevice,
{
    (SeedEntropy { target: size, phase: SeedPhase::Opening, sample: Vec::new(), error: None }, Op::InitDevice)
}

impl SeedEntropy {
    /// The bytes gathered so far; the whole sample once sampling has ended.
    pub fn sample(&self) -> (r: &Vec<u8>)
        ensures
            r@ == self@.sample,
    {
        &self.sample
    }

    /// Gives up the stage for the bytes it gathered.
    pub fn into_sample(self) -> (r: Vec<u8>)
        ensures
            r@ == self@.sample,
    {
        self.sample
    }

    /// Takes the outcome of the operation last asked for: for a chunk, the
    /// bytes that the device yielded.
    pub fn step(&mut self, outcome: Result<Vec<u8>, SystemError>) -> (r: Progress<usize>)
        requires
            seed_wf(old(self)@),
        ensures
            final(self)@ == seed_next(old(self)@, outcome_view(outcome)),
            seed_wf(final(self)@),
            seed_progress(final(self)@, r),
            final(self)@.target == old(self)@.target,
            r matches Progress::Finished(Ok(n)) ==> n == old(self)@.target,
    {
        proof {
            lemma_seed_wf(self@, outcome_view(outcome));
        }
        match self.phase {
            SeedPhase::Opening => match outcome {
                Ok(_) => {
                    self.phase = if self.target == 0 {
                        SeedPhase::OpeningRandom
                    } else {
                        SeedPhase::Sampling
                    };
                },
                Err(cause) => {
                    self.error = Some(
                        Report::caused_by(Failure::DeviceInit, "Failed to connect to NSM device", &cause),
                    );
                    self.phase = SeedPhase::Finished;
                },
            },
            SeedPhase::Sampling => match outcome {
                Ok(chunk) => {
                    let room = self.target - self.sample.len();
                    let take = if chunk.len() < room {
                        chunk.len()
                    } else {
                        room
                    };
                    let ghost before = self.sample@;
                    let ghost error = self.error;
                    let mut i: usize = 0;
                    while i < take
                        invariant
                            take <= chunk.len(),
                            take <= room,
                            room == self.target - before.len(),
                            self.phase == SeedPhase::Sampling,
                            self.error == error,
                            i <= take,
                            self.sample@ == before + chunk@.take(i as int),
                        decreases take - i,
                    {
                        self.sample.push(chunk[i]);
                        i = i + 1;
                        assert(chunk@.take(i as int) == chunk@.take(i - 1 as int).push(chunk@[i - 1]));
                    }
                    assert(take as int == min(chunk@.len() as int, self.target - before.len()));
                    if self.sample.len() == self.target {
                        self.phase = SeedPhase::OpeningRandom;
                    }
                },
                Err(cause) => {
                    self.error = Some(
                        Report::caused_by(
                            Failure::DeviceSample,
                            "Failed to get entropy from NSM device",
                            &cause,
                        ),
                    );
                    self.sample = Vec::new();
                    self.phase = SeedPhase::Finished;
                    assert(self.sample@ =~= Seq::<u8>::empty());
                },
            },
            SeedPhase::OpeningRandom => match outcome {
                Ok(_) => {
                    self.phase = SeedPhase::Writing;
                },
                Err(cause) => {
                    self.error = Some(
                        Report::caused_by(Failure::SeedOpen, "Failed to open /dev/urandom", &cause),
                    );
                    self.phase = SeedPhase::Finished;
                },
            },
            SeedPhase::Writing => match outcome {
                Ok(_) => {
                    self.phase = SeedPhase::Finished;
                },
                Err(cause) => {
                    self.error = Some(
                        Report::caused_by(Failure::SeedWrite, "Failed to write to /dev/urandom", &cause),
                    );
                    self.phase = SeedPhase::Finished;
                },
            },
            SeedPhase::Finished => {},
        }
        match self.phase {
            SeedPhase::Opening => Progress::Perform(Op::InitDevice),
            SeedPhase::Sampling => Progress::Perform(Op::Sample),
            SeedPhase::OpeningRandom => Progress::Perform(Op::OpenRandom),
            SeedPhase::Writing => Progress::Perform(Op::WriteRandom),
            SeedPhase::Finished => match &self.error {
                None => Progress::Finished(Ok(self.sample.len())),
                Some(e) => Progress::Finished(Err(e.cloned())),
            },
        }
    }
}

/// Every step keeps the stage among its reachable states: a sample of
/// `target` bytes comes out of a completed acquisition, never a shorter one,
/// and a failed chunk ends the stage with an error and no sample.
pub proof fn lemma_seed_wf(s: SeedView, out: Result<Seq<u8>, Seq<char>>)
    requires
        seed_wf(s),
    ensures
        seed_wf(seed_next(s, out)),
        s.phase == SeedPhase::Sampling && out is Err ==> seed_next(s, out).error == failed_with(
            Failure::DeviceSample,
            "Failed to get entropy from NSM device"@,
            out->Err_0,
        ) && seed_next(s, out).sample.len() == 0,
        s.phase == SeedPhase::Sampling && seed_next(s, out).phase != SeedPhase::Sampling
            && seed_next(s, out).error is None ==> seed_next(s, out).sample.len() == s.target,
{
}

/// Once the sample has been written in full, the stage reports as many bytes
/// as the sample holds, which is the size asked for.
pub proof fn lemma_seed_reports_length(s: SeedView, written: Seq<u8>, r: Progress<usize>)
    requires
        seed_wf(s),
        s.phase == SeedPhase::Writing,
        seed_progress(seed_next(s, Ok(written)), r),
    ensures
        r matches Progress::Finished(Ok(n)) && n == s.sample.len() && n == s.target,
{
}

/// From any reachable state, a stage that finishes successfully reports
/// exactly the size it was started with: the whole sample was written.
pub proof fn lemma_seed_reports_size(s: SeedView, out: Result<Seq<u8>, Seq<char>>, r: Progress<usize>)
    requires
        seed_wf(s),
        seed_progress(seed_next(s, out), r),
    ensures
        r matches Progress::Finished(Ok(n)) ==> n == s.target && seed_next(s, out).sample.len() == n,
{
    lemma_seed_wf(s, out);
}

} // verus!
