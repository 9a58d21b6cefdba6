//! The install orchestrator: decides whether an artifact must be fetched,
//! drives the streamed download into its cache file, unpacks the archive and
//! reports progress. It is a pure state machine: the host performs each
//! [`Action`] and hands the outcome back as an [`Event`].

use vstd::prelude::*;

verus! {

/// The two artifacts this application installs.
#[derive(Clone, Copy, Debug, PartialEq, Eq)]
pub enum TargetKind {
    /// The runtime binary.
    Runtime,
    /// The application bundle the runtime serves.
    Bundle,
}

/// Where an artifact comes from and where it goes.
#[derive(Clone, Debug, PartialEq, Eq)]
pub struct InstallTarget {
    pub kind: TargetKind,
    /// Address of the archive.
    pub source_url: String,
    /// Cache file the archive is downloaded to.
    pub archive_path: String,
    /// Path whose presence means the artifact is installed; reported when ready.
    pub installed_path: String,
    /// Directory the archive is unpacked into.
    pub extract_dir: String,
}

/// Where one run of `ensure` stands.
#[derive(Clone, Copy, Debug, PartialEq, Eq)]
pub enum Phase {
    /// No run has started yet.
    Idle,
    /// Waiting to learn what is on disk.
    Probing,
    /// Waiting for the server's answer.
    Requesting,
    /// Waiting for the cache file to be created.
    Opening,
    /// Receiving chunks.
    Streaming,
    /// Waiting for the archive to be unpacked.
    Extracting,
    /// The artifact is installed.
    Ready,
    /// The run ended in failure.
    Failed,
}

impl Phase {
    /// A run is in flight: a new `ensure` attaches to it instead of starting another.
    pub open spec fn is_busy(self) -> bool {
        match self {
            Phase::Probing | Phase::Requesting | Phase::Opening | Phase::Streaming
            | Phase::Extracting => true,
            _ => false,
        }
    }

    /// Between the start of the download and its end, whatever the outcome.
    pub open spec fn is_downloading(self) -> bool {
        match self {
            Phase::Requesting | Phase::Opening | Phase::Streaming => true,
            _ => false,
        }
    }
}

/// Why a run failed.
#[derive(Clone, Copy, Debug, PartialEq, Eq)]
pub enum FailReason {
    /// The server refused, the connection broke, or the cache file could not be written.
    RequestFailed,
    /// The server declared no length, so progress has no denominator.
    NoContentLength,
    /// The archive could not be unpacked; the cache file is removed.
    UnzipFailed,
}

/// What the user interface is told.
#[derive(Clone, Debug, PartialEq, Eq)]
pub enum Notice {
    DownloadStart { uri: String, target: String },
    /// `downloaded` of `total` bytes are in the cache file.
    Percent { downloaded: u64, total: u64 },
    UnzipStart { file: String },
    Ready { path: String },
    Failed { reason: FailReason, file: String },
}

/// What the host must do next.
#[derive(Clone, Debug, PartialEq, Eq)]
pub enum Action {
    /// Learn whether the two paths exist; answer with `Event::Probed`.
    Probe { installed_path: String, archive_path: String },
    /// Tell the user interface.
    Emit(Notice),
    /// Send the request; answer with `Event::Responded` or `Event::Broken`.
    Request { url: String },
    /// Create (or truncate) the cache file; answer with `Event::CacheOpened` or `Event::Broken`.
    OpenCache { path: String },
    /// Receive the next chunk and append it to the cache file; answer with
    /// `Event::Chunk`, `Event::StreamEnded` once all is flushed, or `Event::Broken`.
    ReadChunk,
    /// Unpack every entry of the archive; answer with `Event::Extracted`.
    Extract { archive: String, dest: String },
    /// Mark the file executable.
    MakeExecutable { path: String },
    /// Delete the file.
    RemoveFile { path: String },
}

/// What the host observed while performing an action.
#[derive(Clone, Copy, Debug, PartialEq, Eq)]
pub enum Event {
    Probed { installed: bool, archive_exists: bool },
    Responded { success: bool, content_length: Option<u64> },
    CacheOpened,
    Chunk { len: u64 },
    StreamEnded,
    /// A transport or file error.
    Broken,
    Extracted { ok: bool },
}

/// The install state of one artifact.
#[derive(Clone, Debug, PartialEq, Eq)]
pub struct Installer {
    pub target: InstallTarget,
    pub phase: Phase,
    /// Set from the request until the download ends; a cache file left behind
    /// while it is set must be deleted when the process closes.
    pub downloading: bool,
    /// The cache file on disk is known to hold only part of the archive.
    pub partial: bool,
    /// The artifact is known to be installed.
    pub installed: bool,
    pub downloaded: u64,
    pub total: u64,
}

impl Installer {
    /// The download flag is set exactly while downloading, and a cache file
    /// being written is known to be incomplete.
    pub open spec fn wf(self) -> bool {
        &&& self.downloading == self.phase.is_downloading()
        &&& self.phase == Phase::Streaming ==> self.partial
    }
}

/// An installer for `target` before any run.
pub open spec fn fresh(target: InstallTarget, installed: bool) -> Installer {
    Installer {
        target,
        phase: Phase::Idle,
        downloading: false,
        partial: false,
        installed,
        downloaded: 0,
        total: 0,
    }
}

/// The run ends in failure for `reason`.
pub open spec fn fail(s: Installer, reason: FailReason) -> (Installer, Seq<Action>) {
    (
        Installer { phase: Phase::Failed, downloading: false, ..s },
        seq![Action::Emit(Notice::Failed { reason, file: s.target.archive_path })],
    )
}

/// The archive is in the cache: unpack it.
pub open spec fn unpack(s: Installer) -> (Installer, Seq<Action>) {
    (
        Installer { phase: Phase::Extracting, downloading: false, ..s },
        seq![
            Action::Emit(Notice::UnzipStart { file: s.target.archive_path }),
            Action::Extract { archive: s.target.archive_path, dest: s.target.extract_dir },
        ],
    )
}

/// The artifact is in place: a runtime binary is made executable, then ready is reported.
pub open spec fn finish(t: InstallTarget) -> Seq<Action> {
    let ready = Action::Emit(Notice::Ready { path: t.installed_path });
    match t.kind {
        TargetKind::Runtime => seq![Action::MakeExecutable { path: t.installed_path }, ready],
        TargetKind::Bundle => seq![ready],
    }
}

/// A call of `ensure`: starts a run unless one is in flight.
pub open spec fn begin(s: Installer) -> (Installer, Seq<Action>) {
    if s.phase.is_busy() {
        (s, seq![])
    } else {
        (
            Installer { phase: Phase::Probing, downloaded: 0, total: 0, ..s },
            seq![
                Action::Probe {
                    installed_path: s.target.installed_path,
                    archive_path: s.target.archive_path,
                },
            ],
        )
    }
}

/// One transition: the next state and the actions to perform, in order.
/// An event that does not fit the phase changes nothing.
pub open spec fn next(s: Installer, ev: Event) -> (Installer, Seq<Action>) {
    match (s.phase, ev) {
        (Phase::Probing, Event::Probed { installed, archive_exists }) => {
            if installed {
                (
                    Installer { phase: Phase::Ready, installed: true, ..s },
                    seq![Action::Emit(Notice::Ready { path: s.target.installed_path })],
                )
            } else if archive_exists && !s.partial {
                unpack(s)
            } else {
                (
                    Installer { phase: Phase::Requesting, downloading: true, ..s },
                    seq![
                        Action::Emit(
                            Notice::DownloadStart {
                                uri: s.target.source_url,
                                target: s.target.archive_path,
                            },
                        ),
                        Action::Request { url: s.target.source_url },
                    ],
                )
            }
        },
        (Phase::Requesting, Event::Responded { success, content_length }) => {
            if !success {
                fail(s, FailReason::RequestFailed)
            } else {
                match content_length {
                    None => fail(s, FailReason::NoContentLength),
                    Some(t) => (
                        Installer { phase: Phase::Opening, total: t, ..s },
                        seq![Action::OpenCache { path: s.target.archive_path }],
                    ),
                }
            }
        },
        (Phase::Requesting, Event::Broken) => fail(s, FailReason::RequestFailed),
        (Phase::Opening, Event::CacheOpened) => (
            Installer { phase: Phase::Streaming, partial: true, downloaded: 0, ..s },
            seq![Action::ReadChunk],
        ),
        (Phase::Opening, Event::Broken) => fail(s, FailReason::RequestFailed),
        (Phase::Streaming, Event::Chunk { len }) => {
            if s.downloaded + len > u64::MAX {
                fail(s, FailReason::RequestFailed)
            } else {
                let d = (s.downloaded + len) as u64;
                (
                    Installer { downloaded: d, ..s },
                    seq![
                        Action::Emit(Notice::Percent { downloaded: d, total: s.total }),
                        Action::ReadChunk,
                    ],
                )
            }
        },
        (Phase::Streaming, Event::Broken) => fail(s, FailReason::RequestFailed),
        (Phase::Streaming, Event::StreamEnded) => unpack(Installer { partial: false, ..s }),
        (Phase::Extracting, Event::Extracted { ok }) => {
            if ok {
                (Installer { phase: Phase::Ready, installed: true, ..s }, finish(s.target))
            } else {
                (
                    Installer { phase: Phase::Failed, partial: false, ..s },
                    seq![
                        Action::RemoveFile { path: s.target.archive_path },
                        Action::Emit(
                            Notice::Failed {
                                reason: FailReason::UnzipFailed,
                                file: s.target.archive_path,
                            },
                        ),
                    ],
                )
            }
        },
        _ => (s, seq![]),
    }
}

fn one(a: Action) -> (r: Vec<Action>)
    ensures
        r@ == seq![a],
{
    let mut v: Vec<Action> = Vec::new();
    v.push(a);
    assert(v@ =~= seq![a]);
    v
}

fn two(a: Action, b: Action) -> (r: Vec<Action>)
    ensures
        r@ == seq![a, b],
{
    let mut v: Vec<Action> = Vec::new();
    v.push(a);
    v.push(b);
    assert(v@ =~= seq![a, b]);
    v
}

impl Installer {
    /// A target that has not been asked for yet; `installed` is what the disk showed.
    pub fn new(target: InstallTarget, installed: bool) -> (r: Installer)
        ensures
            r == fresh(target, installed),
            r.wf(),
    {
        Installer {
            target,
            phase: Phase::Idle,
            downloading: false,
            partial: false,
            installed,
            downloaded: 0,
            total: 0,
        }
    }

    /// Whether a run is in flight.
    pub fn is_busy(&self) -> (r: bool)
        ensures
            r == self.phase.is_busy(),
    {
        match self.phase {
            Phase::Probing | Phase::Requesting | Phase::Opening | Phase::Streaming
            | Phase::Extracting => true,
            _ => false,
        }
    }

    fn fail_with(&mut self, reason: FailReason) -> (r: Vec<Action>)
        ensures
            *final(self) == fail(*old(self), reason).0,
            r@ == fail(*old(self), reason).1,
    {
        self.phase = Phase::Failed;
        self.downloading = false;
        one(Action::Emit(Notice::Failed { reason, file: self.target.archive_path.clone() }))
    }

    fn unpack_now(&mut self) -> (r: Vec<Action>)
        ensures
            *final(self) == unpack(*old(self)).0,
            r@ == unpack(*old(self)).1,
    {
        self.phase = Phase::Extracting;
        self.downloading = false;
        two(
            Action::Emit(Notice::UnzipStart { file: self.target.archive_path.clone() }),
            Action::Extract {
                archive: self.target.archive_path.clone(),
                dest: self.target.extract_dir.clone(),
            },
        )
    }

    /// Asks for the artifact. Starts a run by probing the disk, unless a run
    /// is already in flight: then nothing changes and its events keep coming.
    pub fn ensure(&mut self) -> (r: Vec<Action>)
        ensures
            *final(self) == begin(*old(self)).0,
            r@ == begin(*old(self)).1,
            old(self).wf() ==> final(self).wf(),
    {
        if self.is_busy() {
            return Vec::new();
        }
        self.phase = Phase::Probing;
        self.downloaded = 0;
        self.total = 0;
        one(
            Action::Probe {
                installed_path: self.target.installed_path.clone(),
                archive_path: self.target.archive_path.clone(),
            },
        )
    }

    /// Takes in what the host observed and returns what it must do next.
    pub fn step(&mut self, ev: Event) -> (r: Vec<Action>)
        ensures
            *final(self) == next(*old(self), ev).0,
            r@ == next(*old(self), ev).1,
            old(self).wf() ==> final(self).wf(),
    {
        match (self.phase, ev) {
            (Phase::Probing, Event::Probed { installed, archive_exists }) => {
                if installed {
                    self.phase = Phase::Ready;
                    self.installed = true;
                    one(Action::Emit(Notice::Ready { path: self.target.installed_path.clone() }))
                } else if archive_exists && !self.partial {
                    self.unpack_now()
                } else {
                    self.phase = Phase::Requesting;
                    self.downloading = true;
                    two(
                        Action::Emit(
                            Notice::DownloadStart {
                                uri: self.target.source_url.clone(),
                                target: self.target.archive_path.clone(),
                            },
                        ),
                        Action::Request { url: self.target.source_url.clone() },
                    )
                }
            },
            (Phase::Requesting, Event::Responded { success, content_length }) => {
                if !success {
                    self.fail_with(FailReason::RequestFailed)
                } else {
                    match content_length {
                        None => self.fail_with(FailReason::NoContentLength),
                        Some(t) => {
                            self.phase = Phase::Opening;
                            self.total = t;
                            one(Action::OpenCache { path: self.target.archive_path.clone() })
                        },
                    }
                }
            },
            (Phase::Requesting, Event::Broken) => self.fail_with(FailReason::RequestFailed),
            (Phase::Opening, Event::CacheOpened) => {
                self.phase = Phase::Streaming;
                self.partial = true;
                self.downloaded = 0;
                one(Action::ReadChunk)
            },
            (Phase::Opening, Event::Broken) => self.fail_with(FailReason::RequestFailed),
            (Phase::Streaming, Event::Chunk { len }) => {
                if len > u64::MAX - self.downloaded {
                    self.fail_with(FailReason::RequestFailed)
                } else {
                    self.downloaded = self.downloaded + len;
                    two(
                        Action::Emit(
                            Notice::Percent { downloaded: self.downloaded, total: self.total },
                        ),
                        Action::ReadChunk,
                    )
                }
            },
            (Phase::Streaming, Event::Broken) => self.fail_with(FailReason::RequestFailed),
            (Phase::Streaming, Event::StreamEnded) => {
                self.partial = false;
                self.unpack_now()
            },
            (Phase::Extracting, Event::Extracted { ok }) => {
                if ok {
                    self.phase = Phase::Ready;
                    self.installed = true;
                    let ready = Action::Emit(
                        Notice::Ready { path: self.target.installed_path.clone() },
                    );
                    match self.target.kind {
                        TargetKind::Runtime => two(
                            Action::MakeExecutable { path: self.target.installed_path.clone() },
                            ready,
                        ),
                        TargetKind::Bundle => one(ready),
                    }
                } else {
                    self.phase = Phase::Failed;
                    self.partial = false;
                    two(
                        Action::RemoveFile { path: self.target.archive_path.clone() },
                        Action::Emit(
                            Notice::Failed {
                                reason: FailReason::UnzipFailed,
                                file: self.target.archive_path.clone(),
                            },
                        ),
                    )
                }
            },
            _ => Vec::new(),
        }
    }
}

/// The name of the user-interface event that carries a notice.
pub open spec fn channel(kind: TargetKind, n: Notice) -> Seq<char> {
    match kind {
        TargetKind::Runtime => match n {
            Notice::DownloadStart { .. } => "deno_download_start"@,
            Notice::Percent { .. } => "deno_download_percent"@,
            Notice::UnzipStart { .. } => "unzip_deno"@,
            Notice::Ready { .. } => "can_download_lobe_chat"@,
            Notice::Failed { .. } => "deno_download_failed"@,
        },
        TargetKind::Bundle => match n {
            Notice::DownloadStart { .. } => "lobe_chat_download_start"@,
            Notice::Percent { .. } => "lobe_chat_download_percent"@,
            Notice::UnzipStart { .. } => "unzip_lobe_chat"@,
            Notice::Ready { .. } => "can_start_lobe_chat_server"@,
            Notice::Failed { .. } => "lobe_chat_download_failed"@,
        },
    }
}

/// The event name for a notice about an artifact of the given kind.
pub fn channel_name(kind: TargetKind, n: &Notice) -> (r: &'static str)
    ensures
        r@ == channel(kind, *n),
{
    match kind {
        TargetKind::Runtime => match n {
            Notice::DownloadStart { .. } => "deno_download_start",
            Notice::Percent { .. } => "deno_download_percent",
            Notice::UnzipStart { .. } => "unzip_deno",
            Notice::Ready { .. } => "can_download_lobe_chat",
            Notice::Failed { .. } => "deno_download_failed",
        },
        TargetKind::Bundle => match n {
            Notice::DownloadStart { .. } => "lobe_chat_download_start",
            Notice::Percent { .. } => "lobe_chat_download_percent",
            Notice::UnzipStart { .. } => "unzip_lobe_chat",
            Notice::Ready { .. } => "can_start_lobe_chat_server",
            Notice::Failed { .. } => "lobe_chat_download_failed",
        },
    }
}

/// The short text that a failure notice gives as its reason.
pub open spec fn reason_text(r: FailReason) -> Seq<char> {
    match r {
        FailReason::RequestFailed => "request failed"@,
        FailReason::NoContentLength => "no content length"@,
        FailReason::UnzipFailed => "unzip failed"@,
    }
}

impl FailReason {
    /// The reason as the user interface shows it.
    pub fn text(&self) -> (r: &'static str)
        ensures
            r@ == reason_text(*self),
    {
        match self {
            FailReason::RequestFailed => "request failed",
            FailReason::NoContentLength => "no content length",
            FailReason::UnzipFailed => "unzip failed",
        }
    }
}

/// The field of the ready notice that carries the installed path.
pub open spec fn ready_field(kind: TargetKind) -> Seq<char> {
    match kind {
        TargetKind::Runtime => "bin_path"@,
        TargetKind::Bundle => "lobe_chat_path"@,
    }
}

impl TargetKind {
    /// The field name under which a ready notice gives the path.
    pub fn ready_field(&self) -> (r: &'static str)
        ensures
            r@ == ready_field(*self),
    {
        match self {
            TargetKind::Runtime => "bin_path",
            TargetKind::Bundle => "lobe_chat_path",
        }
    }
}

} // verus!
