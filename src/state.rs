//! The application state shared by the command handlers: the layout, the
//! two installers and the terminal session.

use vstd::prelude::*;
use crate::install::{begin, fresh, next, Action, Event, Installer, TargetKind};
use crate::layout::Layout;
use crate::session::{Session, SessionPhase};

verus! {

/// What the setup screen is told about the two artifacts.
#[derive(Clone, Debug, PartialEq, Eq)]
pub struct SetupStatus {
    pub runtime_path: String,
    pub runtime_ready: bool,
    pub bundle_path: String,
    pub bundle_ready: bool,
}

/// The one mutable record of the application.
#[derive(Clone, Debug)]
pub struct AppState {
    pub layout: Layout,
    pub runtime: Installer,
    pub bundle: Installer,
    pub session: Session,
}

/// The cache file of an installer, when it must go at close: a download
/// is in flight or left an incomplete file behind.
pub open spec fn leftover(i: Installer) -> Seq<String> {
    if i.downloading || i.partial {
        seq![i.target.archive_path]
    } else {
        seq![]
    }
}

/// The rows and columns a terminal starts with.
pub open spec fn initial_size() -> (u16, u16) {
    (24, 80)
}

impl AppState {
    /// Both installers are well formed.
    pub open spec fn wf(self) -> bool {
        self.runtime.wf() && self.bundle.wf()
    }

    /// The installer of the artifact of the given kind.
    pub open spec fn installer_of(self, kind: TargetKind) -> Installer {
        match kind {
            TargetKind::Runtime => self.runtime,
            TargetKind::Bundle => self.bundle,
        }
    }

    /// The state at start-up: `runtime_installed` and `bundle_installed` are
    /// what the disk showed; no shell is running yet.
    pub fn new(layout: Layout, runtime_installed: bool, bundle_installed: bool) -> (r: AppState)
        ensures
            r.layout == layout,
            r.runtime == fresh(layout.runtime_of(), runtime_installed),
            r.bundle == fresh(layout.bundle_of(), bundle_installed),
            r.wf(),
            r.session.phase == SessionPhase::NotStarted,
            (r.session.rows, r.session.cols) == initial_size(),
            r.session.transcript@.len() == 0,
    {
        let runtime = Installer::new(layout.runtime_target(), runtime_installed);
        let bundle = Installer::new(layout.bundle_target(), bundle_installed);
        AppState { layout, runtime, bundle, session: Session::new(24, 80) }
    }

    /// Asks for an artifact; see `Installer::ensure`.
    pub fn ensure(&mut self, kind: TargetKind) -> (r: Vec<Action>)
        ensures
            final(self).installer_of(kind) == begin(old(self).installer_of(kind)).0,
            r@ == begin(old(self).installer_of(kind)).1,
            final(self).layout == old(self).layout,
            final(self).session == old(self).session,
            kind == TargetKind::Runtime ==> final(self).bundle == old(self).bundle,
            kind == TargetKind::Bundle ==> final(self).runtime == old(self).runtime,
            old(self).wf() ==> final(self).wf(),
    {
        match kind {
            TargetKind::Runtime => self.runtime.ensure(),
            TargetKind::Bundle => self.bundle.ensure(),
        }
    }

    /// Hands an observation to the artifact's installer; see `Installer::step`.
    pub fn step(&mut self, kind: TargetKind, ev: Event) -> (r: Vec<Action>)
        ensures
            final(self).installer_of(kind) == next(old(self).installer_of(kind), ev).0,
            r@ == next(old(self).installer_of(kind), ev).1,
            final(self).layout == old(self).layout,
            final(self).session == old(self).session,
            kind == TargetKind::Runtime ==> final(self).bundle == old(self).bundle,
            kind == TargetKind::Bundle ==> final(self).runtime == old(self).runtime,
            old(self).wf() ==> final(self).wf(),
    {
        match kind {
            TargetKind::Runtime => self.runtime.step(ev),
            TargetKind::Bundle => self.bundle.step(ev),
        }
    }

    /// Where the two artifacts are and whether each is installed.
    pub fn fetch_status(&self) -> (r: SetupStatus)
        ensures
            r == (SetupStatus {
                runtime_path: self.layout.runtime_bin,
                runtime_ready: self.runtime.installed,
                bundle_path: self.layout.bundle_dir,
                bundle_ready: self.bundle.installed,
            }),
    {
        SetupStatus {
            runtime_path: self.layout.runtime_bin.clone(),
            runtime_ready: self.runtime.installed,
            bundle_path: self.layout.bundle_dir.clone(),
            bundle_ready: self.bundle.installed,
        }
    }

    /// The files to delete when the application closes: the cache file of
    /// each artifact whose download is in flight or broke off.
    pub fn cleanup_paths(&self) -> (r: Vec<String>)
        ensures
            r@ == leftover(self.runtime) + leftover(self.bundle),
    {
        let mut v: Vec<String> = Vec::new();
        if self.runtime.downloading || self.runtime.partial {
            v.push(self.runtime.target.archive_path.clone());
        }
        if self.bundle.downloading || self.bundle.partial {
            v.push(self.bundle.target.archive_path.clone());
        }
        assert(v@ =~= leftover(self.runtime) + leftover(self.bundle));
        v
    }
}

} // verus!
