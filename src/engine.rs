//! The playback worker's decisions.
//!
//! The worker owns the output device and the active sink and takes commands
//! one at a time. Everything it does to the outside world (opening a device,
//! decoding a file, building a sink) is an instruction handed back to its
//! driver, and every outcome of such work comes back in as a call. The session
//! below holds the worker's own state; the spec functions `command_step`,
//! `device_step` and `sink_step` say what each call does to it.
use crate::progress::ProgressSnapshot;
use vstd::prelude::*;

verus! {

/// Bit pattern of the gain `1.0`, the volume before any `SetVolume`.
pub const FULL_VOLUME_BITS: u32 = 0x3F80_0000;

/// An output gain. The worker stores and forwards it and never computes with
/// it, so it is carried as the bit pattern of the 32-bit float that the audio
/// output takes.
#[derive(Clone, Copy, Debug, PartialEq, Eq, Structural)]
pub struct Volume {
    pub bits: u32,
}

/// A command for the playback worker.
#[derive(Debug)]
pub enum AudioCommand {
    /// Play the file at this path from its start.
    Play(String),
    Pause,
    Resume,
    /// Move to this many seconds into the current file; play afterwards when
    /// the flag is set, else stay paused.
    Seek(u32, bool),
    SetVolume(Volume),
    /// Switch to the output device of this name, or to the system default.
    SetOutputDevice(Option<String>),
}

/// Where a freshly opened source starts.
#[derive(Clone, Copy, Debug, PartialEq, Eq, Structural)]
pub enum StartPoint {
    Beginning,
    /// Skip this many seconds of the source.
    Seconds(u32),
    /// Skip this many interleaved samples of the source.
    Samples(u64),
}

/// Instruction to replace the sink: stop and drop the old one, open `path`,
/// skip to `start`, and play afterwards or stay paused.
#[derive(Debug)]
pub struct LoadRequest {
    pub path: String,
    pub start: StartPoint,
    pub play: bool,
}

/// What the driver must do after a call into the session.
#[derive(Debug)]
pub enum Directive {
    Nothing,
    PauseSink,
    ResumeSink,
    ApplyVolume(Volume),
    Load(LoadRequest),
    /// Stop and drop the sink, close the output stream, and open the device of
    /// this name (the system default when it is absent or not found).
    OpenDevice(Option<String>),
}

/// Format of a source that was opened.
#[derive(Clone, Copy, Debug, PartialEq, Eq, Structural)]
pub struct SourceInfo {
    pub sample_rate: u32,
    pub channels: u16,
}

/// How a new sink is set up before it is started.
#[derive(Clone, Copy, Debug, PartialEq, Eq, Structural)]
pub struct SinkSetup {
    pub volume: Volume,
    pub play: bool,
}

// ---- the model ----

pub ghost struct LoadView {
    pub path: Seq<char>,
    pub start: StartPoint,
    pub play: bool,
}

pub ghost enum CommandView {
    Play(Seq<char>),
    Pause,
    Resume,
    Seek(u32, bool),
    SetVolume(Volume),
    SetOutputDevice(Option<Seq<char>>),
}

pub ghost enum DirectiveView {
    Nothing,
    PauseSink,
    ResumeSink,
    ApplyVolume(Volume),
    Load(LoadView),
    OpenDevice(Option<Seq<char>>),
}

pub ghost struct SessionView {
    pub has_device: bool,
    pub has_sink: bool,
    pub path: Seq<char>,
    pub volume: Volume,
    pub is_playing: bool,
}

pub open spec fn name_view(n: Option<String>) -> Option<Seq<char>> {
    match n {
        Some(s) => Some(s@),
        None => None,
    }
}

impl View for LoadRequest {
    type V = LoadView;

    open spec fn view(&self) -> LoadView {
        LoadView { path: self.path@, start: self.start, play: self.play }
    }
}

impl View for AudioCommand {
    type V = CommandView;

    open spec fn view(&self) -> CommandView {
        match self {
            AudioCommand::Play(p) => CommandView::Play(p@),
            AudioCommand::Pause => CommandView::Pause,
            AudioCommand::Resume => CommandView::Resume,
            AudioCommand::Seek(t, r) => CommandView::Seek(*t, *r),
            AudioCommand::SetVolume(v) => CommandView::SetVolume(*v),
            AudioCommand::SetOutputDevice(n) => CommandView::SetOutputDevice(name_view(*n)),
        }
    }
}

impl View for Directive {
    type V = DirectiveView;

    open spec fn view(&self) -> DirectiveView {
        match self {
            Directive::Nothing => DirectiveView::Nothing,
            Directive::PauseSink => DirectiveView::PauseSink,
            Directive::ResumeSink => DirectiveView::ResumeSink,
            Directive::ApplyVolume(v) => DirectiveView::ApplyVolume(*v),
            Directive::Load(l) => DirectiveView::Load(l@),
            Directive::OpenDevice(n) => DirectiveView::OpenDevice(name_view(*n)),
        }
    }
}

impl SessionView {
    /// A sink only ever exists on an open device.
    pub open spec fn wf(self) -> bool {
        self.has_sink ==> self.has_device
    }
}

/// The worker's answer to a command.
pub open spec fn command_step(s: SessionView, c: CommandView) -> (SessionView, DirectiveView) {
    match c {
        CommandView::Play(p) => if s.has_device {
            (
                SessionView { has_sink: false, path: p, ..s },
                DirectiveView::Load(LoadView { path: p, start: StartPoint::Beginning, play: true }),
            )
        } else {
            (s, DirectiveView::Nothing)
        },
        CommandView::Pause => if s.has_sink {
            (SessionView { is_playing: false, ..s }, DirectiveView::PauseSink)
        } else {
            (s, DirectiveView::Nothing)
        },
        CommandView::Resume => if s.has_sink {
            (SessionView { is_playing: true, ..s }, DirectiveView::ResumeSink)
        } else {
            (s, DirectiveView::Nothing)
        },
        CommandView::Seek(t, resume) => if s.path.len() == 0 {
            (s, DirectiveView::Nothing)
        } else if s.has_device {
            (
                SessionView { has_sink: false, is_playing: resume, ..s },
                DirectiveView::Load(LoadView { path: s.path, start: StartPoint::Seconds(t), play: resume }),
            )
        } else {
            (SessionView { is_playing: resume, ..s }, DirectiveView::Nothing)
        },
        CommandView::SetVolume(v) => (
            SessionView { volume: v, ..s },
            if s.has_sink { DirectiveView::ApplyVolume(v) } else { DirectiveView::Nothing },
        ),
        CommandView::SetOutputDevice(n) => (
            SessionView { has_device: false, has_sink: false, ..s },
            DirectiveView::OpenDevice(n),
        ),
    }
}

/// The worker's answer to the outcome of opening a device; `samples` is the
/// published position read when the switch began.
pub open spec fn device_step(s: SessionView, opened: bool, samples: u64) -> (SessionView, DirectiveView) {
    if opened && s.path.len() > 0 {
        (
            SessionView { has_device: true, ..s },
            DirectiveView::Load(LoadView { path: s.path, start: StartPoint::Samples(samples), play: s.is_playing }),
        )
    } else {
        (SessionView { has_device: opened, ..s }, DirectiveView::Nothing)
    }
}

/// The worker's state once a sink for `req` exists, and how that sink is set up.
pub open spec fn sink_step(s: SessionView, req: LoadView) -> (SessionView, SinkSetup) {
    (
        SessionView { has_sink: true, is_playing: req.play, ..s },
        SinkSetup { volume: s.volume, play: req.play },
    )
}

/// Interleaved samples in `seconds` of a source of format `info`, capped at
/// the largest count the position cell holds.
pub open spec fn samples_in(seconds: u32, info: SourceInfo) -> u64 {
    let n = seconds as nat * info.sample_rate as nat * info.channels as nat;
    if n <= u64::MAX { n as u64 } else { u64::MAX }
}

/// The position to publish once the source for a load has been opened.
pub open spec fn start_position(start: StartPoint, info: SourceInfo) -> ProgressSnapshot {
    ProgressSnapshot {
        samples_played: match start {
            StartPoint::Beginning => 0,
            StartPoint::Seconds(t) => samples_in(t, info),
            StartPoint::Samples(n) => n,
        },
        sample_rate: info.sample_rate,
        channels: info.channels as u32,
    }
}

// ---- the session ----

/// State owned by the playback worker alone.
pub struct PlayerSession {
    pub has_device: bool,
    pub has_sink: bool,
    pub current_path: String,
    pub volume: Volume,
    pub is_playing: bool,
}

impl View for PlayerSession {
    type V = SessionView;

    open spec fn view(&self) -> SessionView {
        SessionView {
            has_device: self.has_device,
            has_sink: self.has_sink,
            path: self.current_path@,
            volume: self.volume,
            is_playing: self.is_playing,
        }
    }
}

impl PlayerSession {
    /// A session on an output stream that was (`has_device`) or was not opened.
    pub fn new(has_device: bool) -> (r: PlayerSession)
        ensures
            r@.wf(),
            r@.has_device == has_device,
            !r@.has_sink,
            r@.path.len() == 0,
            r@.volume.bits == FULL_VOLUME_BITS,
            !r@.is_playing,
    {
        PlayerSession {
            has_device,
            has_sink: false,
            current_path: String::new(),
            volume: Volume { bits: FULL_VOLUME_BITS },
            is_playing: false,
        }
    }

    pub fn handle(&mut self, cmd: AudioCommand) -> (d: Directive)
        requires
            old(self)@.wf(),
        ensures
            final(self)@.wf(),
            (final(self)@, d@) == command_step(old(self)@, cmd@),
    {
        match cmd {
            AudioCommand::Play(path) => {
                if self.has_device {
                    self.has_sink = false;
                    let p = path.clone();
                    self.current_path = path;
                    Directive::Load(LoadRequest { path: p, start: StartPoint::Beginning, play: true })
                } else {
                    Directive::Nothing
                }
            },
            AudioCommand::Pause => {
                if self.has_sink {
                    self.is_playing = false;
                    Directive::PauseSink
                } else {
                    Directive::Nothing
                }
            },
            AudioCommand::Resume => {
                if self.has_sink {
                    self.is_playing = true;
                    Directive::ResumeSink
                } else {
                    Directive::Nothing
                }
            },
            AudioCommand::Seek(t, resume) => {
                if self.current_path.as_str().is_empty() {
                    Directive::Nothing
                } else if self.has_device {
                    self.has_sink = false;
                    self.is_playing = resume;
                    Directive::Load(LoadRequest { path: self.current_path.clone(), start: StartPoint::Seconds(t), play: resume })
                } else {
                    self.is_playing = resume;
                    Directive::Nothing
                }
            },
            AudioCommand::SetVolume(v) => {
                self.volume = v;
                if self.has_sink {
                    Directive::ApplyVolume(v)
                } else {
                    Directive::Nothing
                }
            },
            AudioCommand::SetOutputDevice(name) => {
                self.has_sink = false;
                self.has_device = false;
                Directive::OpenDevice(name)
            },
        }
    }

    /// Called once the device asked for by `OpenDevice` was opened or not;
    /// `position` is the published position read before the switch began.
    pub fn device_opened(&mut self, opened: bool, position: ProgressSnapshot) -> (d: Directive)
        requires
            old(self)@.wf(),
            !old(self)@.has_sink,
        ensures
            final(self)@.wf(),
            (final(self)@, d@) == device_step(old(self)@, opened, position.samples_played),
    {
        self.has_device = opened;
        if opened && !self.current_path.as_str().is_empty() {
            Directive::Load(LoadRequest {
                path: self.current_path.clone(),
                start: StartPoint::Samples(position.samples_played),
                play: self.is_playing,
            })
        } else {
            Directive::Nothing
        }
    }

    /// The position to publish, before the new sink is built, once the source
    /// for `req` has been opened with format `info`.
    pub fn source_opened(&self, req: &LoadRequest, info: SourceInfo) -> (r: ProgressSnapshot)
        ensures
            r == start_position(req.start, info),
    {
        let samples_played: u64 = match req.start {
            StartPoint::Beginning => 0,
            StartPoint::Seconds(t) => {
                assert(u32::MAX as int * u16::MAX as int <= u64::MAX) by (nonlinear_arith);
                proof {
                    vstd::arithmetic::mul::lemma_mul_upper_bound(
                        info.sample_rate as int, u32::MAX as int, info.channels as int, u16::MAX as int);
                }
                let per_second = (info.sample_rate as u64) * (info.channels as u64);
                assert(t as nat * info.sample_rate as nat * info.channels as nat == t as nat * per_second as nat)
                    by (nonlinear_arith) requires per_second == info.sample_rate as nat * info.channels as nat;
                match (t as u64).checked_mul(per_second) {
                    Some(n) => n,
                    None => u64::MAX,
                }
            },
            StartPoint::Samples(n) => n,
        };
        ProgressSnapshot { samples_played, sample_rate: info.sample_rate, channels: info.channels as u32 }
    }

    /// Called once the sink for `req` has been built on the current device;
    /// returns how to set it up. When building fails nothing is called, and
    /// the session stays without a sink.
    pub fn sink_created(&mut self, req: &LoadRequest) -> (r: SinkSetup)
        requires
            old(self)@.wf(),
            old(self)@.has_device,
        ensures
            final(self)@.wf(),
            (final(self)@, r) == sink_step(old(self)@, req@),
    {
        self.has_sink = true;
        self.is_playing = req.play;
        SinkSetup { volume: self.volume, play: req.play }
    }
}

// ---- laws ----

/// Between loads the position never moves back: counting more samples never
/// lowers the elapsed time, and pausing, resuming or changing the volume asks
/// for no load and no device switch, the only steps that write a position.
pub proof fn lemma_position_monotone_between_loads(s: SessionView, c: CommandView, p: ProgressSnapshot, more: u64)
    requires
        s.wf(),
        p.samples_played as nat + more as nat <= u64::MAX,
        c is Pause || c is Resume || c is SetVolume,
    ensures
        !(command_step(s, c).1 is Load),
        !(command_step(s, c).1 is OpenDevice),
        (ProgressSnapshot { samples_played: (p.samples_played + more) as u64, ..p }).millis() >= p.millis(),
        (ProgressSnapshot { samples_played: (p.samples_played + more) as u64, ..p }).seconds() >= p.seconds(),
{
    let q = ProgressSnapshot { samples_played: (p.samples_played + more) as u64, ..p };
    if !p.is_unset() {
        let d = p.per_second() as int;
        assert(d > 0) by (nonlinear_arith)
            requires d == p.sample_rate as nat * p.channels as nat, p.sample_rate > 0, p.channels > 0;
        vstd::arithmetic::div_mod::lemma_div_is_ordered(
            p.samples_played as int * 1000, q.samples_played as int * 1000, d);
        vstd::arithmetic::div_mod::lemma_div_is_ordered(
            p.samples_played as int, q.samples_played as int, d);
    }
}

/// A seek on a loaded file asks for the file to be reopened at the target, and
/// the position published once it is open is exactly the target, before any
/// sample of the new sink is played.
pub proof fn lemma_seek_publishes_target(s: SessionView, t: u32, resume: bool, info: SourceInfo)
    requires
        s.wf(),
        s.has_device,
        s.path.len() > 0,
        info.sample_rate > 0,
        info.channels > 0,
        t as nat * info.sample_rate as nat * info.channels as nat <= u64::MAX,
    ensures
        command_step(s, CommandView::Seek(t, resume)).1
            == DirectiveView::Load(LoadView { path: s.path, start: StartPoint::Seconds(t), play: resume }),
        start_position(StartPoint::Seconds(t), info).seconds() == t,
        start_position(StartPoint::Seconds(t), info).millis() == t as nat * 1000,
{
    let p = start_position(StartPoint::Seconds(t), info);
    let d = p.per_second() as int;
    assert(d > 0 && p.samples_played as int == t as int * d) by (nonlinear_arith)
        requires
            d == info.sample_rate as nat * info.channels as nat,
            info.sample_rate > 0,
            info.channels > 0,
            p.samples_played as int == t as nat * info.sample_rate as nat * info.channels as nat;
    vstd::arithmetic::div_mod::lemma_div_multiples_vanish(t as int, d);
    assert(p.samples_played as int * 1000 == (t as int * 1000) * d) by (nonlinear_arith)
        requires p.samples_played as int == t as int * d;
    vstd::arithmetic::div_mod::lemma_div_multiples_vanish(t as int * 1000, d);
}

/// Switching the output device keeps the play/pause state: the file is
/// reopened at the position read before the switch, and the new sink plays
/// exactly when the old one did. When the device cannot be opened the state
/// is still kept, and the session waits without a sink.
pub proof fn lemma_device_switch_keeps_play_state(
    s: SessionView,
    name: Option<Seq<char>>,
    opened: bool,
    samples: u64,
    info: SourceInfo,
)
    requires
        s.wf(),
    ensures
        ({
            let (s1, d1) = command_step(s, CommandView::SetOutputDevice(name));
            let (s2, d2) = device_step(s1, opened, samples);
            &&& d1 == DirectiveView::OpenDevice(name)
            &&& s2.is_playing == s.is_playing
            &&& s2.path == s.path
            &&& (opened && s.path.len() > 0) ==> {
                let req = LoadView { path: s.path, start: StartPoint::Samples(samples), play: s.is_playing };
                &&& d2 == DirectiveView::Load(req)
                &&& sink_step(s2, req).0.is_playing == s.is_playing
                &&& sink_step(s2, req).1.play == s.is_playing
                &&& start_position(req.start, info).samples_played == samples
            }
            &&& !(opened && s.path.len() > 0) ==> d2 == DirectiveView::Nothing && !s2.has_sink
        }),
{
}

/// A volume once set is the volume of every sink built afterwards, whether
/// for a new file, a seek or a new output device.
pub proof fn lemma_volume_survives_reload(
    s: SessionView,
    v: Volume,
    c: CommandView,
    opened: bool,
    samples: u64,
)
    requires
        s.wf(),
        c is Play || c is Seek || c is SetOutputDevice,
    ensures
        ({
            let s1 = command_step(s, CommandView::SetVolume(v)).0;
            let (s2, d2) = command_step(s1, c);
            let (s3, d3) = device_step(s2, opened, samples);
            &&& s2.volume == v
            &&& s3.volume == v
            &&& d2 matches DirectiveView::Load(req) ==> sink_step(s2, req).1.volume == v
            &&& d3 matches DirectiveView::Load(req) ==> sink_step(s3, req).1.volume == v
        }),
{
}

} // verus!
