use vstd::prelude::*;
use vstd::string::to_string_from_display_ensures;

use crate::config::{BootConfig, Endpoint};
use crate::entropy::{seed_entropy, seed_next, seed_op, seed_wf, SeedEntropy, SeedPhase, SeedView};
use crate::error::{chained, outcome_view, ErrorView, Failure, Report, SystemError};
use crate::ops::{Op, Progress};
use crate::platform::{init_platform, platform_next, platform_op, PlatformInit, PlatformPhase, PlatformView};

verus! {

/// One line of the boot log.
#[derive(Debug)]
pub enum Note {
    Mounted { index: usize, target: String },
    MountFailed { index: usize, target: String, cause: String },
    ConsoleFailed { index: usize, path: String, cause: String },
    PlatformReady,
    StageFailed(Report),
    Seeded(usize),
    Unrecoverable,
    Booted,
}

/// What a log line says: which mount or stream it is about, and the
/// operating system's message or the whole error where something failed.
pub enum NoteView {
    Mounted(usize),
    MountFailed(usize, Seq<char>),
    ConsoleFailed(usize, Seq<char>),
    PlatformReady,
    StageFailed(ErrorView),
    Seeded(usize),
    Unrecoverable,
    Booted,
}

impl Note {
    pub open spec fn view_of(self) -> NoteView {
        match self {
            Note::Mounted { index, .. } => NoteView::Mounted(index),
            Note::MountFailed { index, cause, .. } => NoteView::MountFailed(index, cause@),
            Note::ConsoleFailed { index, cause, .. } => NoteView::ConsoleFailed(index, cause@),
            Note::PlatformReady => NoteView::PlatformReady,
            Note::StageFailed(e) => NoteView::StageFailed(e.error_view()),
            Note::Seeded(n) => NoteView::Seeded(n),
            Note::Unrecoverable => NoteView::Unrecoverable,
            Note::Booted => NoteView::Booted,
        }
    }

    /// Whether the line belongs on the standard error stream: failures, the
    /// fatal line, and the line that ends the boot.
    pub fn is_error(&self) -> (r: bool)
        ensures
            r <==> !(self.view_of() is Mounted || self.view_of() is PlatformReady || self.view_of() is Seeded),
    {
        match self {
            Note::Mounted { .. } | Note::PlatformReady | Note::Seeded(_) => false,
            _ => true,
        }
    }

    /// The kind of failure that the line reports, if it reports one.
    pub fn failure(&self) -> (r: Option<Failure>)
        ensures
            r == match self.view_of() {
                NoteView::MountFailed(..) => Some(Failure::Mount),
                NoteView::ConsoleFailed(..) => Some(Failure::ConsoleOpen),
                NoteView::StageFailed(e) => Some(e.failure),
                _ => None::<Failure>,
            },
    {
        match self {
            Note::MountFailed { .. } => Some(Failure::Mount),
            Note::ConsoleFailed { .. } => Some(Failure::ConsoleOpen),
            Note::StageFailed(e) => Some(e.kind()),
            _ => None,
        }
    }
}

/// The text of a log line that carries no number.
pub open spec fn note_text(n: Note) -> Seq<char> {
    match n {
        Note::Mounted { target, .. } => "Mounted "@ + target@,
        Note::MountFailed { target, cause, .. } => "Unable to mount "@ + target@ + " ("@ + cause@
            + ")"@,
        Note::ConsoleFailed { path, cause, .. } => "Unable to open "@ + path@ + " ("@ + cause@
            + ")"@,
        Note::PlatformReady => "Platform initialized"@,
        Note::StageFailed(e) => e.message_view(),
        Note::Seeded(_) => "Seeded kernel with entropy: "@,
        Note::Unrecoverable => "Unable to recover from above system error, rebooting"@,
        Note::Booted => "EnclaveOS Booted"@,
    }
}

impl Note {
    /// The line as it is logged, after its time stamp.
    pub fn text(&self) -> (r: String)
        ensures
            match *self {
                Note::Seeded(n) => exists|d: String|
                    to_string_from_display_ensures::<usize>(&n, d) && r@ == note_text(*self) + d@,
                _ => r@ == note_text(*self),
            },
    {
        match self {
            Note::Mounted { target, .. } => {
                let mut r = String::from_str("Mounted ");
                r.append(target.as_str());
                r
            },
            Note::MountFailed { target, cause, .. } => {
                let mut r = String::from_str("Unable to mount ");
                r.append(target.as_str());
                r.append(" (");
                r.append(cause.as_str());
                r.append(")");
                r
            },
            Note::ConsoleFailed { path, cause, .. } => {
                let mut r = String::from_str("Unable to open ");
                r.append(path.as_str());
                r.append(" (");
                r.append(cause.as_str());
                r.append(")");
                r
            },
            Note::PlatformReady => String::from_str("Platform initialized"),
            Note::StageFailed(e) => e.to_string(),
            Note::Seeded(n) => {
                let mut r = String::from_str("Seeded kernel with entropy: ");
                let d = n.to_string();
                r.append(d.as_str());
                r
            },
            Note::Unrecoverable => String::from_str("Unable to recover from above system error, rebooting"),
            Note::Booted => String::from_str("EnclaveOS Booted"),
        }
    }
}

pub open spec fn notes_view(notes: Seq<Note>) -> Seq<NoteView> {
    notes.map_values(|n: Note| n.view_of())
}

/// A log line names the mount or console of the configuration that it is about.
pub open spec fn note_agrees(n: Note, config: BootConfig) -> bool {
    match n {
        Note::Mounted { index, target } => index < config.mounts.len() && target@
            == config.mounts[index as int].target@,
        Note::MountFailed { index, target, .. } => index < config.mounts.len() && target@
            == config.mounts[index as int].target@,
        Note::ConsoleFailed { index, path, .. } => index < config.consoles.len() && path@
            == config.consoles[index as int].path@,
        _ => true,
    }
}

pub open spec fn notes_agree(notes: Seq<Note>, config: BootConfig) -> bool {
    forall|i: int| 0 <= i < notes.len() ==> note_agrees(#[trigger] notes[i], config)
}

/// Where the boot stands.
#[derive(Debug)]
pub enum Stage {
    Mounting(usize),
    Consoles(usize),
    Platform(PlatformInit),
    Entropy(SeedEntropy),
    Halted,
}

pub enum StageView {
    Mounting(nat),
    Consoles(nat),
    Platform(PlatformView),
    Entropy(SeedView),
    Halted,
}

pub struct HardwareView {
    pub endpoint: Endpoint,
    pub magic: u8,
    pub entropy_size: nat,
}

pub struct BootView {
    pub mounts: nat,
    pub consoles: nat,
    pub hardware: Option<HardwareView>,
    pub release: bool,
    pub stage: StageView,
}

/// The boot sequence: mounts, console, platform attestation, entropy, reboot.
#[derive(Debug)]
pub struct Boot {
    config: BootConfig,
    stage: Stage,
}

pub open spec fn stage_view(stage: Stage) -> StageView {
    match stage {
        Stage::Mounting(i) => StageView::Mounting(i as nat),
        Stage::Consoles(k) => StageView::Consoles(k as nat),
        Stage::Platform(p) => StageView::Platform(p@),
        Stage::Entropy(e) => StageView::Entropy(e@),
        Stage::Halted => StageView::Halted,
    }
}

pub open spec fn config_view(config: BootConfig, stage: StageView) -> BootView {
    BootView {
        mounts: config.mounts.len() as nat,
        consoles: config.consoles.len() as nat,
        hardware: match config.hardware {
            Some(h) => Some(
                HardwareView {
                    endpoint: h.endpoint,
                    magic: h.magic,
                    entropy_size: h.entropy_size as nat,
                },
            ),
            None => None,
        },
        release: config.release,
        stage,
    }
}

impl View for Boot {
    type V = BootView;

    closed spec fn view(&self) -> BootView {
        config_view(self.config, stage_view(self.stage))
    }
}

/// The states that a boot can reach.
pub open spec fn boot_wf(s: BootView) -> bool {
    match s.stage {
        StageView::Mounting(i) => i < s.mounts,
        StageView::Consoles(k) => k < s.consoles,
        StageView::Platform(p) => s.hardware matches Some(h) && p.endpoint == h.endpoint && p.magic
            == h.magic,
        StageView::Entropy(e) => s.hardware matches Some(h) && e.target == h.entropy_size && seed_wf(
            e,
        ),
        StageView::Halted => true,
    }
}

/// The boot has ended: log that it booted, and reboot.
pub open spec fn finish(s: BootView, notes: Seq<NoteView>) -> (BootView, Seq<NoteView>, Op) {
    (BootView { stage: StageView::Halted, ..s }, notes.push(NoteView::Booted), Op::Reboot)
}

pub open spec fn enter_entropy(s: BootView, notes: Seq<NoteView>) -> (BootView, Seq<NoteView>, Op) {
    match s.hardware {
        Some(h) => (
            BootView {
                stage: StageView::Entropy(
                    SeedView {
                        target: h.entropy_size,
                        phase: SeedPhase::Opening,
                        sample: Seq::empty(),
                        error: None,
                    },
                ),
                ..s
            },
            notes,
            Op::InitDevice,
        ),
        None => finish(s, notes),
    }
}

pub open spec fn enter_platform(s: BootView, notes: Seq<NoteView>) -> (BootView, Seq<NoteView>, Op) {
    match s.hardware {
        Some(h) => (
            BootView {
                stage: StageView::Platform(
                    PlatformView {
                        endpoint: h.endpoint,
                        magic: h.magic,
                        phase: PlatformPhase::Connecting,
                        error: None,
                    },
                ),
                ..s
            },
            notes,
            Op::Connect(h.endpoint),
        ),
        None => enter_entropy(s, notes),
    }
}

pub open spec fn enter_consoles(s: BootView, notes: Seq<NoteView>) -> (BootView, Seq<NoteView>, Op) {
    if s.consoles > 0 {
        (BootView { stage: StageView::Consoles(0), ..s }, notes, Op::Reopen(0))
    } else {
        enter_platform(s, notes)
    }
}

pub open spec fn enter_mounts(s: BootView) -> (BootView, Seq<NoteView>, Op) {
    if s.mounts > 0 {
        (BootView { stage: StageView::Mounting(0), ..s }, seq![], Op::Mount(0))
    } else {
        enter_consoles(s, seq![])
    }
}

/// A critical stage failed: in release mode say that the boot cannot
/// recover and reboot; otherwise go on with `next`.
pub open spec fn escalate(
    s: BootView,
    notes: Seq<NoteView>,
    error: ErrorView,
    next: (BootView, Seq<NoteView>, Op),
) -> (BootView, Seq<NoteView>, Op) {
    if s.release {
        (
            BootView { stage: StageView::Halted, ..s },
            notes.push(NoteView::StageFailed(error)).push(NoteView::Unrecoverable),
            Op::Reboot,
        )
    } else {
        next
    }
}

/// A stage's error, wrapped in the context of the stage.
pub open spec fn in_context(context: Seq<char>, e: ErrorView) -> ErrorView {
    ErrorView { failure: e.failure, message: chained(context, e.message) }
}

/// The boot after the operation last asked for succeeded (`Ok`, with the
/// bytes it read) or failed (`Err`, with the operating system's message):
/// the next state, the lines logged, and
/// the next operation.
pub open spec fn boot_next(s: BootView, out: Result<Seq<u8>, Seq<char>>) -> (BootView, Seq<NoteView>, Op) {
    match s.stage {
        StageView::Mounting(i) => {
            let notes = match out {
                Ok(_) => seq![NoteView::Mounted(i as usize)],
                Err(cause) => seq![NoteView::MountFailed(i as usize, cause)],
            };
            if i + 1 < s.mounts {
                (BootView { stage: StageView::Mounting(i + 1), ..s }, notes, Op::Mount((i + 1) as usize))
            } else {
                enter_consoles(s, notes)
            }
        },
        StageView::Consoles(k) => {
            let notes = match out {
                Ok(_) => seq![],
                Err(cause) => seq![NoteView::ConsoleFailed(k as usize, cause)],
            };
            if k + 1 < s.consoles {
                (BootView { stage: StageView::Consoles(k + 1), ..s }, notes, Op::Reopen((k + 1) as usize))
            } else {
                enter_platform(s, notes)
            }
        },
        StageView::Platform(p) => {
            let p2 = platform_next(p, out);
            match platform_op(p2) {
                Some(op) => (BootView { stage: StageView::Platform(p2), ..s }, seq![], op),
                None => match p2.error {
                    None => enter_entropy(s, seq![NoteView::PlatformReady]),
                    Some(e) => {
                        let e = in_context("Error when initializing AWS functionality"@, e);
                        escalate(s, seq![], e, enter_entropy(s, seq![NoteView::StageFailed(e)]))
                    },
                },
            }
        },
        StageView::Entropy(e) => {
            let e2 = seed_next(e, out);
            match seed_op(e2) {
                Some(op) => (BootView { stage: StageView::Entropy(e2), ..s }, seq![], op),
                None => match e2.error {
                    None => finish(s, seq![NoteView::Seeded(e2.sample.len() as usize)]),
                    Some(e) => {
                        let e = in_context("Unable to seed kernel with entropy"@, e);
                        escalate(s, seq![], e, finish(s, seq![NoteView::StageFailed(e)]))
                    },
                },
            }
        },
        StageView::Halted => (s, seq![], Op::Reboot),
    }
}

/// A failed mount does not keep the next mount of the list from being tried.
pub proof fn lemma_mount_failure_continues(s: BootView, i: nat, cause: Seq<char>)
    requires
        boot_wf(s),
        s.stage == StageView::Mounting(i),
        i + 1 < s.mounts,
    ensures
        boot_next(s, Err(cause)).2 == Op::Mount((i + 1) as usize),
        boot_next(s, Err(cause)).0.stage == StageView::Mounting(i + 1),
        boot_next(s, Err(cause)).1 == seq![NoteView::MountFailed(i as usize, cause)],
{
}

/// A failed redirection of one standard stream does not keep the next
/// stream's redirection from being tried.
pub proof fn lemma_console_failure_continues(s: BootView, k: nat, cause: Seq<char>)
    requires
        boot_wf(s),
        s.stage == StageView::Consoles(k),
        k + 1 < s.consoles,
    ensures
        boot_next(s, Err(cause)).2 == Op::Reopen((k + 1) as usize),
        boot_next(s, Err(cause)).0.stage == StageView::Consoles(k + 1),
        boot_next(s, Err(cause)).1 == seq![NoteView::ConsoleFailed(k as usize, cause)],
{
}

/// Mount and console failures, such as those of a second boot on a kernel
/// whose filesystems are already mounted, are logged and the boot goes on,
/// in either mode: they never end it early.
pub proof fn lemma_setup_failures_recoverable(s: BootView, out: Result<Seq<u8>, Seq<char>>)
    requires
        boot_wf(s),
        s.stage is Mounting || s.stage is Consoles,
    ensures
        !boot_next(s, out).1.contains(NoteView::Unrecoverable),
        boot_next(s, out).2 == Op::Reboot ==> boot_next(s, out).1.last() == NoteView::Booted,
{
    let r = boot_next(s, out);
    if r.1.contains(NoteView::Unrecoverable) {
        let j = choose|j: int| 0 <= j < r.1.len() && r.1[j] == NoteView::Unrecoverable;
        assert(r.1[j] != NoteView::Unrecoverable);
    }
}

/// In release mode, a hypervisor endpoint that refuses the connection ends
/// the boot: the failure and the fact that it cannot be recovered from are
/// logged, the machine reboots, and nothing more is done, the entropy
/// stage least of all.
pub proof fn lemma_release_refused_attestation(
    s: BootView,
    cause: Seq<char>,
    out: Result<Seq<u8>, Seq<char>>,
)
    requires
        boot_wf(s),
        s.release,
        s.stage matches StageView::Platform(p) && p.phase == PlatformPhase::Connecting && p.error
            is None,
    ensures
        boot_next(s, Err(cause)).0.stage == StageView::Halted,
        boot_next(s, Err(cause)).1 == seq![
            NoteView::StageFailed(
                ErrorView {
                    failure: Failure::ChannelConnect,
                    message: chained(
                        "Error when initializing AWS functionality"@,
                        chained("Failed to connect to socket"@, cause),
                    ),
                },
            ),
            NoteView::Unrecoverable,
        ],
        boot_next(s, Err(cause)).2 == Op::Reboot,
        boot_next(boot_next(s, Err(cause)).0, out) == (
            boot_next(s, Err(cause)).0,
            Seq::<NoteView>::empty(),
            Op::Reboot,
        ),
{
}

/// Once the boot has halted it only ever asks for the reboot, and logs nothing.
pub proof fn lemma_halted_stays(s: BootView, out: Result<Seq<u8>, Seq<char>>)
    requires
        s.stage == StageView::Halted,
    ensures
        boot_next(s, out) == (s, Seq::<NoteView>::empty(), Op::Reboot),
{
}

/// The line saying that the boot is done is logged only as the last line of
/// the step that asks for the reboot, and a step that asks for the reboot
/// halts the boot; with `lemma_halted_stays`, a boot logs it at most once,
/// right before its one reboot.
pub proof fn lemma_booted_precedes_reboot(s: BootView, out: Result<Seq<u8>, Seq<char>>)
    requires
        boot_wf(s),
    ensures
        boot_next(s, out).2 == Op::Reboot ==> boot_next(s, out).0.stage == StageView::Halted,
        forall|j: int|
            0 <= j < boot_next(s, out).1.len() && #[trigger] boot_next(s, out).1[j] == NoteView::Booted
                ==> j == boot_next(s, out).1.len() - 1 && boot_next(s, out).2 == Op::Reboot,
{
}

/// In debug mode no failure is escalated: the boot never gives up early.
pub proof fn lemma_debug_never_fatal(s: BootView, out: Result<Seq<u8>, Seq<char>>)
    requires
        boot_wf(s),
        !s.release,
    ensures
        !boot_next(s, out).1.contains(NoteView::Unrecoverable),
{
    let r = boot_next(s, out);
    if r.1.contains(NoteView::Unrecoverable) {
        let j = choose|j: int| 0 <= j < r.1.len() && r.1[j] == NoteView::Unrecoverable;
        assert(r.1[j] != NoteView::Unrecoverable);
    }
}

/// An operation names a mount or console that the configuration has, and a
/// module load happens only on a platform with hardware.
pub open spec fn op_in_range(op: Op, config: BootConfig) -> bool {
    match op {
        Op::Mount(i) => i < config.mounts.len(),
        Op::Reopen(k) => k < config.consoles.len(),
        Op::Connect(endpoint) => config.hardware matches Some(h) && h.endpoint == endpoint,
        Op::Send(magic) => config.hardware matches Some(h) && h.magic == magic,
        Op::LoadModule | Op::InitDevice | Op::Sample | Op::OpenRandom | Op::WriteRandom => config.hardware is Some,
        _ => true,
    }
}

/// One step of the boot: the lines to log, then the operation to perform.
#[derive(Debug)]
pub struct Step {
    pub notes: Vec<Note>,
    pub op: Op,
}

proof fn lemma_notes_view_push(notes: Seq<Note>, n: Note)
    ensures
        notes_view(notes.push(n)) == notes_view(notes).push(n.view_of()),
{
    assert(notes_view(notes.push(n)) =~= notes_view(notes).push(n.view_of()));
}

impl Boot {
    pub closed spec fn config(&self) -> BootConfig {
        self.config
    }

    /// A reachable state, whose view counts the mounts and consoles of the
    /// configuration and takes its hardware and mode from it.
    pub open spec fn wf(&self) -> bool {
        &&& boot_wf(self@)
        &&& self@ == config_view(self.config(), self@.stage)
    }

    /// The configuration that the boot runs from.
    pub fn configuration(&self) -> (r: &BootConfig)
        ensures
            *r == self.config(),
    {
        &self.config
    }

    /// The entropy sample gathered so far, while the entropy stage runs: the
    /// bytes that `Op::WriteRandom` asks to be written.
    pub fn sample(&self) -> (r: Option<&Vec<u8>>)
        ensures
            match self@.stage {
                StageView::Entropy(e) => r matches Some(v) && v@ == e.sample,
                _ => r is None,
            },
    {
        match &self.stage {
            Stage::Entropy(e) => Some(e.sample()),
            _ => None,
        }
    }

    /// Starts a boot of `config`: the first step.
    pub fn new(config: BootConfig) -> (r: (Boot, Step))
        ensures
            r.0.config() == config,
            r.0.wf(),
            op_in_range(r.1.op, config),
            r.0@ == enter_mounts(config_view(config, StageView::Halted)).0,
            notes_view(r.1.notes@) == enter_mounts(config_view(config, StageView::Halted)).1,
            r.1.op == enter_mounts(config_view(config, StageView::Halted)).2,
            notes_agree(r.1.notes@, config),
    {
        let mut boot = Boot { config, stage: Stage::Halted };
        let mut notes: Vec<Note> = Vec::new();
        assert(notes_view(notes@) =~= Seq::<NoteView>::empty());
        let op = if boot.config.mounts.len() > 0 {
            boot.stage = Stage::Mounting(0);
            Op::Mount(0)
        } else {
            boot.enter_consoles(&mut notes)
        };
        (boot, Step { notes, op })
    }

    /// Takes the outcome of the operation last asked for (for a chunk of
    /// entropy, the bytes that the device yielded) and gives the next step.
    pub fn step(&mut self, outcome: Result<Vec<u8>, SystemError>) -> (r: Step)
        requires
            old(self).wf(),
        ensures
            final(self).wf(),
            final(self).config() == old(self).config(),
            op_in_range(r.op, old(self).config()),
            final(self)@ == boot_next(old(self)@, outcome_view(outcome)).0,
            notes_view(r.notes@) == boot_next(old(self)@, outcome_view(outcome)).1,
            r.op == boot_next(old(self)@, outcome_view(outcome)).2,
            notes_agree(r.notes@, old(self).config()),
    {
        let ghost s = self@;
        let ghost out = outcome_view(outcome);
        let mut notes: Vec<Note> = Vec::new();
        assert(notes_view(notes@) =~= Seq::<NoteView>::empty());
        let mut stage = Stage::Halted;
        std::mem::swap(&mut self.stage, &mut stage);
        match stage {
            Stage::Mounting(i) => {
                let target = self.config.mounts[i].target.clone();
                let note = match outcome {
                    Ok(_) => Note::Mounted { index: i, target },
                    Err(cause) => Note::MountFailed { index: i, target, cause: cause.message },
                };
                proof {
                    lemma_notes_view_push(notes@, note);
                }
                notes.push(note);
                let op = if i + 1 < self.config.mounts.len() {
                    self.stage = Stage::Mounting(i + 1);
                    Op::Mount(i + 1)
                } else {
                    self.enter_consoles(&mut notes)
                };
                Step { notes, op }
            },
            Stage::Consoles(k) => {
                if let Err(cause) = outcome {
                    let note = Note::ConsoleFailed {
                        index: k,
                        path: self.config.consoles[k].path.clone(),
                        cause: cause.message,
                    };
                    proof {
                        lemma_notes_view_push(notes@, note);
                    }
                    notes.push(note);
                }
                let op = if k + 1 < self.config.consoles.len() {
                    self.stage = Stage::Consoles(k + 1);
                    Op::Reopen(k + 1)
                } else {
                    self.enter_platform(&mut notes)
                };
                Step { notes, op }
            },
            Stage::Platform(mut p) => {
                let op = match p.step(outcome) {
                    Progress::Perform(op) => {
                        self.stage = Stage::Platform(p);
                        op
                    },
                    Progress::Finished(Ok(())) => {
                        proof {
                            lemma_notes_view_push(notes@, Note::PlatformReady);
                        }
                        notes.push(Note::PlatformReady);
                        self.enter_entropy(&mut notes)
                    },
                    Progress::Finished(Err(e)) => {
                        let note = Note::StageFailed(e.context("Error when initializing AWS functionality"));
                        proof {
                            lemma_notes_view_push(notes@, note);
                        }
                        notes.push(note);
                        if self.config.release {
                            proof {
                                lemma_notes_view_push(notes@, Note::Unrecoverable);
                            }
                            notes.push(Note::Unrecoverable);
                            Op::Reboot
                        } else {
                            self.enter_entropy(&mut notes)
                        }
                    },
                };
                Step { notes, op }
            },
            Stage::Entropy(mut e) => {
                let op = match e.step(outcome) {
                    Progress::Perform(op) => {
                        self.stage = Stage::Entropy(e);
                        op
                    },
                    Progress::Finished(Ok(n)) => {
                        proof {
                            lemma_notes_view_push(notes@, Note::Seeded(n));
                        }
                        notes.push(Note::Seeded(n));
                        self.finish(&mut notes)
                    },
                    Progress::Finished(Err(err)) => {
                        let note = Note::StageFailed(err.context("Unable to seed kernel with entropy"));
                        proof {
                            lemma_notes_view_push(notes@, note);
                        }
                        notes.push(note);
                        if self.config.release {
                            proof {
                                lemma_notes_view_push(notes@, Note::Unrecoverable);
                            }
                            notes.push(Note::Unrecoverable);
                            Op::Reboot
                        } else {
                            self.finish(&mut notes)
                        }
                    },
                };
                Step { notes, op }
            },
            Stage::Halted => Step { notes, op: Op::Reboot },
        }
    }

    fn finish(&mut self, notes: &mut Vec<Note>) -> (op: Op)
        ensures
            final(self).config == old(self).config,
            final(self)@ == finish(old(self)@, notes_view(old(notes)@)).0,
            notes_view(final(notes)@) == finish(old(self)@, notes_view(old(notes)@)).1,
            op == finish(old(self)@, notes_view(old(notes)@)).2,
            notes_agree(old(notes)@, old(self).config) ==> notes_agree(final(notes)@, old(self).config),
    {
        proof {
            lemma_notes_view_push(notes@, Note::Booted);
        }
        notes.push(Note::Booted);
        self.stage = Stage::Halted;
        Op::Reboot
    }

    fn enter_entropy(&mut self, notes: &mut Vec<Note>) -> (op: Op)
        ensures
            final(self).config == old(self).config,
            final(self)@ == enter_entropy(old(self)@, notes_view(old(notes)@)).0,
            notes_view(final(notes)@) == enter_entropy(old(self)@, notes_view(old(notes)@)).1,
            op == enter_entropy(old(self)@, notes_view(old(notes)@)).2,
            boot_wf(final(self)@),
            notes_agree(old(notes)@, old(self).config) ==> notes_agree(final(notes)@, old(self).config),
    {
        match &self.config.hardware {
            Some(h) => {
                let (e, op) = seed_entropy(h.entropy_size);
                self.stage = Stage::Entropy(e);
                op
            },
            None => self.finish(notes),
        }
    }

    fn enter_platform(&mut self, notes: &mut Vec<Note>) -> (op: Op)
        ensures
            final(self).config == old(self).config,
            final(self)@ == enter_platform(old(self)@, notes_view(old(notes)@)).0,
            notes_view(final(notes)@) == enter_platform(old(self)@, notes_view(old(notes)@)).1,
            op == enter_platform(old(self)@, notes_view(old(notes)@)).2,
            boot_wf(final(self)@),
            notes_agree(old(notes)@, old(self).config) ==> notes_agree(final(notes)@, old(self).config),
    {
        match &self.config.hardware {
            Some(h) => {
                let (p, op) = init_platform(h);
                self.stage = Stage::Platform(p);
                op
            },
            None => self.enter_entropy(notes),
        }
    }

    fn enter_consoles(&mut self, notes: &mut Vec<Note>) -> (op: Op)
        ensures
            final(self).config == old(self).config,
            final(self)@ == enter_consoles(old(self)@, notes_view(old(notes)@)).0,
            notes_view(final(notes)@) == enter_consoles(old(self)@, notes_view(old(notes)@)).1,
            op == enter_consoles(old(self)@, notes_view(old(notes)@)).2,
            boot_wf(final(self)@),
            notes_agree(old(notes)@, old(self).config) ==> notes_agree(final(notes)@, old(self).config),
    {
        if self.config.consoles.len() > 0 {
            self.stage = Stage::Consoles(0);
            Op::Reopen(0)
        } else {
            self.enter_platform(notes)
        }
    }
}

} // verus!
