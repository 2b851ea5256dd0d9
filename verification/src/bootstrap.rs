//! The startup sequence, modelled as an explicit state machine.
//!
//! Startup alternates framework work (attaching a plugin, resolving the
//! platform's application-local data directory, running the event loop)
//! with decisions (which plugin comes next, how the salt-file path is
//! derived, when a failure is fatal). The decisions live here, verified;
//! an unverified shim asks [`Bootstrap::next_action`] what to do, performs
//! the framework call, and reports the outcome through
//! [`Bootstrap::step`].

use vstd::prelude::*;
use crate::plugins::{Plugin, builder_plugin_count, registration_order};
use crate::salt::{salt_file_path, salt_suffix};

verus! {

/// Why startup gave up. Mirrors the fatal failure points of the
/// sequence: the local data directory could not be resolved, the vault
/// plugin's registration during setup returned an error, or the
/// framework's run loop itself failed.
#[derive(Clone, Copy, Debug, PartialEq, Eq, Structural)]
pub enum AbortReason {
    LocalDataDirUnavailable,
    VaultSetupFailed,
    RunLoopFailed,
}

/// Where the startup sequence stands.
#[derive(Debug)]
pub enum Phase {
    /// Attaching the five builder plugins; the next one to attach is
    /// given by how many are already registered.
    Attaching,
    /// All builder plugins attached; the application-local data
    /// directory is being resolved.
    ResolvingDir,
    /// The salt-file path is known; the vault plugin is being attached.
    AttachingVault { salt_path: String },
    /// All six plugins attached; the run loop may be entered.
    ReadyToRun,
    /// The run loop was entered and ended normally: the application
    /// exited.
    Exited,
    /// Startup failed; the fatal diagnostic is owed and nothing more
    /// runs.
    Aborted { reason: AbortReason },
}

/// The framework call that the sequence asks for next.
#[derive(Debug)]
pub enum Action {
    /// Attach this plugin to the application builder (infallible).
    Attach(Plugin),
    /// Ask the platform for the application-local data directory.
    ResolveLocalDataDir,
    /// Attach the vault plugin, its key derivation seeded by the salt
    /// file at this path (may fail).
    AttachVault(String),
    /// Enter the framework's blocking run loop.
    EnterRunLoop,
    /// Report this fatal failure and terminate.
    Report(AbortReason),
    /// The application has exited; nothing is left to do.
    Finish,
}

/// The outcome of a framework call, reported back to the sequence.
#[derive(Debug)]
pub enum Event {
    /// The requested builder plugin was attached.
    Attached,
    /// The local data directory resolved to this path.
    DirResolved { dir: String },
    /// The local data directory could not be resolved.
    DirUnavailable,
    /// The vault plugin was attached.
    VaultAttached,
    /// Attaching the vault plugin returned an error.
    VaultFailed,
    /// The run loop ended normally.
    RunLoopExited,
    /// The run loop failed to start or ended with an error.
    RunLoopFailed,
}

/// The state of one application start: which plugins are registered, in
/// order, and where the sequence stands.
pub struct Bootstrap {
    pub registered: Vec<Plugin>,
    pub phase: Phase,
}

/// The builder plugin at position `k` of the registration order.
fn builder_plugin_at(k: usize) -> (p: Plugin)
    requires
        k < builder_plugin_count(),
    ensures
        p == registration_order()[k as int],
{
    match k {
        0 => Plugin::Http,
        1 => Plugin::Os,
        2 => Plugin::Opener,
        3 => Plugin::Store,
        _ => Plugin::Shell,
    }
}

impl Bootstrap {
    /// Well-formedness: the registered plugins are exactly a prefix of
    /// the registration order, and their number matches the phase.
    pub open spec fn wf(self) -> bool {
        &&& self.registered@.len() <= registration_order().len()
        &&& self.registered@ == registration_order().take(self.registered@.len() as int)
        &&& match self.phase {
            Phase::Attaching => self.registered@.len() < builder_plugin_count(),
            Phase::ResolvingDir => self.registered@.len() == builder_plugin_count(),
            Phase::AttachingVault { .. } => self.registered@.len() == builder_plugin_count(),
            Phase::ReadyToRun => self.registered@.len() == registration_order().len(),
            Phase::Exited => self.registered@.len() == registration_order().len(),
            Phase::Aborted { reason } => match reason {
                AbortReason::LocalDataDirUnavailable => self.registered@.len()
                    == builder_plugin_count(),
                AbortReason::VaultSetupFailed => self.registered@.len() == builder_plugin_count(),
                AbortReason::RunLoopFailed => self.registered@.len() == registration_order().len(),
            },
        }
    }

    /// Which events answer the pending action. A sequence that has
    /// exited or aborted expects none: it is over, and re-driving it is
    /// disallowed.
    pub open spec fn expects(self, event: Event) -> bool {
        match self.phase {
            Phase::Attaching => event is Attached,
            Phase::ResolvingDir => event is DirResolved || event is DirUnavailable,
            Phase::AttachingVault { .. } => event is VaultAttached || event is VaultFailed,
            Phase::ReadyToRun => event is RunLoopExited || event is RunLoopFailed,
            Phase::Exited => false,
            Phase::Aborted { .. } => false,
        }
    }

    /// Has the sequence reached the framework's run loop?
    pub open spec fn run_loop_reached(self) -> bool {
        match self.phase {
            Phase::ReadyToRun => true,
            Phase::Exited => true,
            Phase::Aborted { reason } => reason is RunLoopFailed,
            _ => false,
        }
    }

    /// A fresh sequence for one application start: nothing registered,
    /// about to attach the first builder plugin.
    pub fn new() -> (b: Bootstrap)
        ensures
            b.wf(),
            b.registered@ =~= Seq::<Plugin>::empty(),
            b.phase is Attaching,
    {
        let b = Bootstrap { registered: Vec::new(), phase: Phase::Attaching };
        proof {
            assert(b.registered@ =~= registration_order().take(0));
        }
        b
    }

    /// The framework call the sequence asks for next, fully determined
    /// by the current phase.
    pub fn next_action(&self) -> (a: Action)
        requires
            self.wf(),
        ensures
            self.phase is Attaching ==> {
                &&& a matches Action::Attach(p)
                &&& p == registration_order()[self.registered@.len() as int]
            },
            self.phase is ResolvingDir ==> a is ResolveLocalDataDir,
            self.phase matches Phase::AttachingVault { salt_path } ==> {
                &&& a matches Action::AttachVault(q)
                &&& q@ == salt_path@
            },
            self.phase is ReadyToRun ==> a is EnterRunLoop,
            self.phase is Exited ==> a is Finish,
            self.phase matches Phase::Aborted { reason } ==> {
                &&& a matches Action::Report(r)
                &&& r == reason
            },
    {
        match &self.phase {
            Phase::Attaching => Action::Attach(builder_plugin_at(self.registered.len())),
            Phase::ResolvingDir => Action::ResolveLocalDataDir,
            Phase::AttachingVault { salt_path } => Action::AttachVault(salt_path.clone()),
            Phase::ReadyToRun => Action::EnterRunLoop,
            Phase::Exited => Action::Finish,
            Phase::Aborted { reason } => Action::Report(*reason),
        }
    }

    /// Advance by the outcome of the last framework call. Attaching
    /// records exactly the next plugin of the registration order; a
    /// resolved directory fixes the salt-file path as `<dir>/salt.dat`;
    /// an unresolved directory, a failed vault registration and a failed
    /// run loop each abort the sequence with the matching reason and
    /// register nothing further.
    pub fn step(&mut self, event: Event)
        requires
            old(self).wf(),
            old(self).expects(event),
        ensures
            final(self).wf(),
            event is Attached ==> {
                &&& final(self).registered@ == old(self).registered@.push(
                    registration_order()[old(self).registered@.len() as int],
                )
                &&& (final(self).phase is Attaching <==> old(self).registered@.len() + 1
                    < builder_plugin_count())
                &&& (final(self).phase is ResolvingDir <==> old(self).registered@.len() + 1
                    == builder_plugin_count())
            },
            event matches Event::DirResolved { dir } ==> {
                &&& final(self).registered@ == old(self).registered@
                &&& final(self).phase matches Phase::AttachingVault { salt_path } && salt_path@
                    == dir@ + salt_suffix()
            },
            event is DirUnavailable ==> {
                &&& final(self).registered@ == old(self).registered@
                &&& final(self).phase matches Phase::Aborted { reason } && reason
                    is LocalDataDirUnavailable
            },
            event is VaultAttached ==> {
                &&& final(self).registered@ == registration_order()
                &&& final(self).phase is ReadyToRun
            },
            event is VaultFailed ==> {
                &&& final(self).registered@ == old(self).registered@
                &&& final(self).phase matches Phase::Aborted { reason } && reason
                    is VaultSetupFailed
            },
            event is RunLoopExited ==> {
                &&& final(self).registered@ == old(self).registered@
                &&& final(self).phase is Exited
            },
            event is RunLoopFailed ==> {
                &&& final(self).registered@ == old(self).registered@
                &&& final(self).phase matches Phase::Aborted { reason } && reason is RunLoopFailed
            },
    {
        match event {
            Event::Attached => {
                let next = builder_plugin_at(self.registered.len());
                self.registered.push(next);
                proof {
                    assert(self.registered@ =~= registration_order().take(
                        self.registered@.len() as int,
                    ));
                }
                if self.registered.len() == 5 {
                    self.phase = Phase::ResolvingDir;
                }
            },
            Event::DirResolved { dir } => {
                self.phase = Phase::AttachingVault { salt_path: salt_file_path(dir.as_str()) };
            },
            Event::DirUnavailable => {
                self.phase = Phase::Aborted { reason: AbortReason::LocalDataDirUnavailable };
            },
            Event::VaultAttached => {
                self.registered.push(Plugin::Stronghold);
                proof {
                    assert(self.registered@ =~= registration_order());
                    assert(self.registered@ =~= registration_order().take(
                        self.registered@.len() as int,
                    ));
                }
                self.phase = Phase::ReadyToRun;
            },
            Event::VaultFailed => {
                self.phase = Phase::Aborted { reason: AbortReason::VaultSetupFailed };
            },
            Event::RunLoopExited => {
                self.phase = Phase::Exited;
            },
            Event::RunLoopFailed => {
                self.phase = Phase::Aborted { reason: AbortReason::RunLoopFailed };
            },
        }
    }
}

/// Law: no plugin is ever registered twice. At every well-formed state
/// of the sequence the record of registered plugins has no duplicates.
pub proof fn lemma_no_double_registration(b: Bootstrap)
    requires
        b.wf(),
    ensures
        forall|i: int, j: int|
            0 <= i < j < b.registered@.len() ==> b.registered@[i] != b.registered@[j],
{
    crate::plugins::lemma_order_has_no_duplicates();
}

/// Law: when the sequence is ready to enter the run loop, all six
/// plugins are registered, each exactly once, in registration order.
pub proof fn lemma_run_loop_has_all_plugins_once(b: Bootstrap)
    requires
        b.wf(),
        b.phase is ReadyToRun,
    ensures
        b.registered@ == registration_order(),
        forall|p: Plugin| #[trigger] b.registered@.contains(p),
        forall|i: int, j: int|
            0 <= i < j < b.registered@.len() ==> b.registered@[i] != b.registered@[j],
{
    assert(b.registered@ =~= registration_order());
    crate::plugins::lemma_order_is_complete();
    lemma_no_double_registration(b);
}

/// Law: a sequence that has exited or aborted is over. It accepts no
/// further event, so one application start registers its plugins once;
/// re-driving a finished sequence is disallowed rather than allowed to
/// double-register.
pub proof fn lemma_finished_accepts_nothing(b: Bootstrap, event: Event)
    requires
        b.wf(),
        b.phase is Exited || b.phase is Aborted,
    ensures
        !b.expects(event),
{
}

/// Law: when the local data directory could not be resolved, startup
/// stands aborted short of the run loop: exactly the five builder
/// plugins are registered, the vault never is, and no further startup
/// step runs.
pub proof fn lemma_dir_failure_stops_startup(b: Bootstrap, event: Event)
    requires
        b.wf(),
        b.phase matches Phase::Aborted { reason } && reason is LocalDataDirUnavailable,
    ensures
        !b.expects(event),
        !b.run_loop_reached(),
        b.registered@ == registration_order().take(builder_plugin_count()),
        !b.registered@.contains(Plugin::Stronghold),
{
    assert forall|i: int| 0 <= i < b.registered@.len() implies b.registered@[i]
        != Plugin::Stronghold by {
        assert(b.registered@[i] == registration_order()[i]);
    }
}

impl AbortReason {
    /// The fatal diagnostic reported for this failure. An unresolvable
    /// local data directory has its own message; a vault registration
    /// error surfaces from the run phase and shares the run loop's
    /// message.
    pub fn message(&self) -> (m: String)
        ensures
            self is LocalDataDirUnavailable ==> m@ == "could not resolve app local data path"@,
            self is VaultSetupFailed ==> m@ == "error while running tauri application"@,
            self is RunLoopFailed ==> m@ == "error while running tauri application"@,
    {
        match self {
            AbortReason::LocalDataDirUnavailable => "could not resolve app local data path".to_owned(),
            AbortReason::VaultSetupFailed => "error while running tauri application".to_owned(),
            AbortReason::RunLoopFailed => "error while running tauri application".to_owned(),
        }
    }
}

} // verus!
