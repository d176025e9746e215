//! The resolution and provisioning state machine.
//!
//! The resolver owns every decision of the locate / provision / launch flow,
//! but performs no I/O itself. [`Resolver::start`] checks the requested
//! identity and yields the first action; the host performs each [`Action`] (a
//! PATH lookup, a file probe, a registry query, an installation) and reports
//! the outcome as an [`Event`] to [`Resolver::next`], which yields the
//! following action or the terminal result. The whole transition relation is
//! the spec function [`step_spec`], which each call of `next` is proved to
//! follow exactly.

use vstd::prelude::*;
use crate::launch::LaunchDescriptor;
use crate::launch::LaunchDescriptorModel;
use crate::launch::LaunchError;
use crate::launch::LaunchErrorModel;
use crate::launch::bridged_descriptor;
use crate::launch::bridge_script_rel;
use crate::launch::direct_descriptor;
use crate::launch::join_path;
use crate::launch::package_name;
use crate::launch::server_identity;
use crate::launch::server_script_rel;
use crate::launch::spec_bridge_script_rel;
use crate::launch::spec_bridged_descriptor;
use crate::launch::spec_direct_descriptor;
use crate::launch::spec_join;
use crate::launch::spec_package_name;
use crate::launch::spec_server_identity;
use crate::launch::spec_server_script_rel;
use crate::launch::str_eq;

verus! {

/// Which installation-status transition the host should report to the user.
/// Reporting is fire-and-forget: it carries no reply beyond acknowledgement.
pub enum StatusReport {
    CheckingForUpdate,
    Downloading,
}

/// One unit of outside work the host must perform for the resolver.
pub enum Action {
    /// Search the host's executable search path for a binary of this name.
    LookupOnPath { name: String },
    /// Probe whether this path exists as a regular file under the workspace.
    CheckLocalFile { path: String },
    /// Report an installation-status transition to the user.
    ReportStatus { status: StatusReport },
    /// Ask the package registry for the latest version of the package.
    QueryLatestVersion { package: String },
    /// Read which version of the package is installed locally, if any.
    QueryInstalledVersion { package: String },
    /// Install the package at exactly this version.
    Install { package: String, version: String },
    /// Determine the directory holding the current process's own executable.
    LocateSelf,
    /// Resolve the absolute path of the runtime interpreter for scripts.
    LocateInterpreter,
}

/// Mathematical model of an [`Action`].
#[verifier::ext_equal]
pub enum ActionModel {
    LookupOnPath { name: Seq<char> },
    CheckLocalFile { path: Seq<char> },
    ReportStatus { status: StatusReport },
    QueryLatestVersion { package: Seq<char> },
    QueryInstalledVersion { package: Seq<char> },
    Install { package: Seq<char>, version: Seq<char> },
    LocateSelf,
    LocateInterpreter,
}

impl View for Action {
    type V = ActionModel;

    open spec fn view(&self) -> ActionModel {
        match self {
            Action::LookupOnPath { name } => ActionModel::LookupOnPath { name: name@ },
            Action::CheckLocalFile { path } => ActionModel::CheckLocalFile { path: path@ },
            Action::ReportStatus { status } => ActionModel::ReportStatus { status: *status },
            Action::QueryLatestVersion { package } => ActionModel::QueryLatestVersion {
                package: package@,
            },
            Action::QueryInstalledVersion { package } => ActionModel::QueryInstalledVersion {
                package: package@,
            },
            Action::Install { package, version } => ActionModel::Install {
                package: package@,
                version: version@,
            },
            Action::LocateSelf => ActionModel::LocateSelf,
            Action::LocateInterpreter => ActionModel::LocateInterpreter,
        }
    }
}

/// The outcome of one [`Action`], reported back by the host.
#[allow(inconsistent_fields)]
pub enum Event {
    /// Outcome of `LookupOnPath`: the found executable, if any.
    PathLookup { found: Option<String> },
    /// Outcome of `CheckLocalFile`: whether the file exists.
    LocalFile { exists: bool },
    /// Acknowledgement of `ReportStatus`.
    StatusReported,
    /// Outcome of `QueryLatestVersion`: the version, or the registry error.
    LatestVersion { result: Result<String, String> },
    /// Outcome of `QueryInstalledVersion`.
    InstalledVersion { version: Option<String> },
    /// Outcome of `Install`: success, or the installer's error.
    Installed { result: Result<(), String> },
    /// Outcome of `LocateSelf`: the directory, or `None` if the process's own
    /// location cannot be determined.
    SelfLocation { directory: Option<String> },
    /// Outcome of `LocateInterpreter`.
    Interpreter { path: String },
}

/// Mathematical model of an [`Event`].
#[allow(inconsistent_fields)]
#[verifier::ext_equal]
pub enum EventModel {
    PathLookup { found: Option<Seq<char>> },
    LocalFile { exists: bool },
    StatusReported,
    LatestVersion { result: Result<Seq<char>, Seq<char>> },
    InstalledVersion { version: Option<Seq<char>> },
    Installed { result: Result<(), Seq<char>> },
    SelfLocation { directory: Option<Seq<char>> },
    Interpreter { path: Seq<char> },
}

impl View for Event {
    type V = EventModel;

    open spec fn view(&self) -> EventModel {
        match self {
            Event::PathLookup { found } => EventModel::PathLookup {
                found: match found {
                    Some(p) => Some(p@),
                    None => None,
                },
            },
            Event::LocalFile { exists } => EventModel::LocalFile { exists: *exists },
            Event::StatusReported => EventModel::StatusReported,
            Event::LatestVersion { result } => EventModel::LatestVersion {
                result: match result {
                    Ok(v) => Ok(v@),
                    Err(m) => Err(m@),
                },
            },
            Event::InstalledVersion { version } => EventModel::InstalledVersion {
                version: match version {
                    Some(v) => Some(v@),
                    None => None,
                },
            },
            Event::Installed { result } => EventModel::Installed {
                result: match result {
                    Ok(_) => Ok(()),
                    Err(m) => Err(m@),
                },
            },
            Event::SelfLocation { directory } => EventModel::SelfLocation {
                directory: match directory {
                    Some(d) => Some(d@),
                    None => None,
                },
            },
            Event::Interpreter { path } => EventModel::Interpreter { path: path@ },
        }
    }
}

/// Where the resolver stands between two host calls. Each waiting phase names
/// the event it expects.
pub enum Phase {
    AwaitPathLookup,
    AwaitLocalCheck,
    AwaitCheckingAck { exists: bool },
    AwaitLatestVersion { exists: bool },
    AwaitInstalledVersion { exists: bool, latest: String },
    AwaitDownloadAck { latest: String },
    AwaitInstall,
    AwaitPostInstallCheck,
    AwaitFallbackCheck { install_error: String },
    AwaitSelfLocation,
    AwaitInterpreter { directory: String },
    Finished,
}

/// Mathematical model of a [`Phase`].
#[verifier::ext_equal]
pub enum PhaseModel {
    AwaitPathLookup,
    AwaitLocalCheck,
    AwaitCheckingAck { exists: bool },
    AwaitLatestVersion { exists: bool },
    AwaitInstalledVersion { exists: bool, latest: Seq<char> },
    AwaitDownloadAck { latest: Seq<char> },
    AwaitInstall,
    AwaitPostInstallCheck,
    AwaitFallbackCheck { install_error: Seq<char> },
    AwaitSelfLocation,
    AwaitInterpreter { directory: Seq<char> },
    Finished,
}

impl View for Phase {
    type V = PhaseModel;

    open spec fn view(&self) -> PhaseModel {
        match self {
            Phase::AwaitPathLookup => PhaseModel::AwaitPathLookup,
            Phase::AwaitLocalCheck => PhaseModel::AwaitLocalCheck,
            Phase::AwaitCheckingAck { exists } => PhaseModel::AwaitCheckingAck {
                exists: *exists,
            },
            Phase::AwaitLatestVersion { exists } => PhaseModel::AwaitLatestVersion {
                exists: *exists,
            },
            Phase::AwaitInstalledVersion { exists, latest } => PhaseModel::AwaitInstalledVersion {
                exists: *exists,
                latest: latest@,
            },
            Phase::AwaitDownloadAck { latest } => PhaseModel::AwaitDownloadAck { latest: latest@ },
            Phase::AwaitInstall => PhaseModel::AwaitInstall,
            Phase::AwaitPostInstallCheck => PhaseModel::AwaitPostInstallCheck,
            Phase::AwaitFallbackCheck { install_error } => PhaseModel::AwaitFallbackCheck {
                install_error: install_error@,
            },
            Phase::AwaitSelfLocation => PhaseModel::AwaitSelfLocation,
            Phase::AwaitInterpreter { directory } => PhaseModel::AwaitInterpreter {
                directory: directory@,
            },
            Phase::Finished => PhaseModel::Finished,
        }
    }
}

/// The per-session provisioning state: whether this session has already
/// confirmed that the server is present and current. Initialized false; set
/// true only by a successful resolution; never shared across sessions.
pub struct ProvisionState {
    pub confirmed_present: bool,
}

impl ProvisionState {
    pub fn new() -> (r: ProvisionState)
        ensures
            !r.confirmed_present,
    {
        ProvisionState { confirmed_present: false }
    }
}

/// One in-flight resolution call.
pub struct Resolver {
    pub phase: Phase,
    pub workspace_root: String,
    pub confirmed_present: bool,
}

/// Mathematical model of a [`Resolver`].
#[verifier::ext_equal]
pub struct ResolverModel {
    pub phase: PhaseModel,
    pub workspace_root: Seq<char>,
    pub confirmed_present: bool,
}

impl View for Resolver {
    type V = ResolverModel;

    open spec fn view(&self) -> ResolverModel {
        ResolverModel {
            phase: self.phase@,
            workspace_root: self.workspace_root@,
            confirmed_present: self.confirmed_present,
        }
    }
}

/// What the resolver hands back after each call: the next unit of outside
/// work, or the terminal result.
pub enum Step {
    Pending { action: Action },
    Done { result: Result<LaunchDescriptor, LaunchError> },
}

/// Mathematical model of a [`Step`].
#[verifier::ext_equal]
pub enum StepModel {
    Pending { action: ActionModel },
    Done { result: Result<LaunchDescriptorModel, LaunchErrorModel> },
}

impl View for Step {
    type V = StepModel;

    open spec fn view(&self) -> StepModel {
        match self {
            Step::Pending { action } => StepModel::Pending { action: action@ },
            Step::Done { result } => StepModel::Done {
                result: match result {
                    Ok(d) => Ok(d@),
                    Err(e) => Err(e@),
                },
            },
        }
    }
}

/// The expected local server entry script, rooted at the workspace.
pub open spec fn spec_local_script_path(root: Seq<char>) -> Seq<char> {
    spec_join(root, spec_server_script_rel())
}

/// Which event answers which waiting phase.
pub open spec fn expects(phase: PhaseModel, event: EventModel) -> bool {
    match (phase, event) {
        (PhaseModel::AwaitPathLookup, EventModel::PathLookup { .. }) => true,
        (PhaseModel::AwaitLocalCheck, EventModel::LocalFile { .. }) => true,
        (PhaseModel::AwaitCheckingAck { .. }, EventModel::StatusReported) => true,
        (PhaseModel::AwaitLatestVersion { .. }, EventModel::LatestVersion { .. }) => true,
        (PhaseModel::AwaitInstalledVersion { .. }, EventModel::InstalledVersion { .. }) => true,
        (PhaseModel::AwaitDownloadAck { .. }, EventModel::StatusReported) => true,
        (PhaseModel::AwaitInstall, EventModel::Installed { .. }) => true,
        (PhaseModel::AwaitPostInstallCheck, EventModel::LocalFile { .. }) => true,
        (PhaseModel::AwaitFallbackCheck { .. }, EventModel::LocalFile { .. }) => true,
        (PhaseModel::AwaitSelfLocation, EventModel::SelfLocation { .. }) => true,
        (PhaseModel::AwaitInterpreter { .. }, EventModel::Interpreter { .. }) => true,
        _ => false,
    }
}

/// The first transition: validate the identity, then probe the PATH first —
/// a PATH hit always takes precedence over any local copy.
pub open spec fn start_spec(identity: Seq<char>, root: Seq<char>, confirmed: bool) -> (
    ResolverModel,
    StepModel,
) {
    if identity == spec_server_identity() {
        (
            ResolverModel {
                phase: PhaseModel::AwaitPathLookup,
                workspace_root: root,
                confirmed_present: confirmed,
            },
            StepModel::Pending { action: ActionModel::LookupOnPath { name: identity } },
        )
    } else {
        (
            ResolverModel {
                phase: PhaseModel::Finished,
                workspace_root: root,
                confirmed_present: confirmed,
            },
            StepModel::Done {
                result: Err(LaunchErrorModel::UnknownServerIdentity { id: identity }),
            },
        )
    }
}

/// Move to the launch phases with the session flag set as given: the local
/// copy has been accepted, and the bridge path must now be computed.
pub open spec fn spec_go_launch(s: ResolverModel, confirmed: bool) -> (ResolverModel, StepModel) {
    (
        ResolverModel { phase: PhaseModel::AwaitSelfLocation, confirmed_present: confirmed, ..s },
        StepModel::Pending { action: ActionModel::LocateSelf },
    )
}

/// The complete transition relation of the resolver. `next` follows it
/// exactly; outside `expects(s.phase, e)` it is left unspecified.
pub open spec fn step_spec(s: ResolverModel, e: EventModel) -> (ResolverModel, StepModel)
    recommends
        expects(s.phase, e),
{
    match (s.phase, e) {
        (PhaseModel::AwaitPathLookup, EventModel::PathLookup { found }) => match found {
            // A PATH hit is directly runnable: launch it as it stands.
            Some(path) => (
                ResolverModel { phase: PhaseModel::Finished, ..s },
                StepModel::Done { result: Ok(spec_direct_descriptor(path)) },
            ),
            None => (
                ResolverModel { phase: PhaseModel::AwaitLocalCheck, ..s },
                StepModel::Pending {
                    action: ActionModel::CheckLocalFile {
                        path: spec_local_script_path(s.workspace_root),
                    },
                },
            ),
        },
        (PhaseModel::AwaitLocalCheck, EventModel::LocalFile { exists }) => {
            if s.confirmed_present && exists {
                // Single validation per session: present once proven, no
                // registry traffic until restart.
                spec_go_launch(s, s.confirmed_present)
            } else {
                (
                    ResolverModel { phase: PhaseModel::AwaitCheckingAck { exists }, ..s },
                    StepModel::Pending {
                        action: ActionModel::ReportStatus {
                            status: StatusReport::CheckingForUpdate,
                        },
                    },
                )
            }
        },
        (PhaseModel::AwaitCheckingAck { exists }, EventModel::StatusReported) => (
            ResolverModel { phase: PhaseModel::AwaitLatestVersion { exists }, ..s },
            StepModel::Pending {
                action: ActionModel::QueryLatestVersion { package: spec_package_name() },
            },
        ),
        (PhaseModel::AwaitLatestVersion { exists }, EventModel::LatestVersion { result }) => match result {
            Ok(latest) => (
                ResolverModel {
                    phase: PhaseModel::AwaitInstalledVersion { exists, latest },
                    ..s
                },
                StepModel::Pending {
                    action: ActionModel::QueryInstalledVersion { package: spec_package_name() },
                },
            ),
            Err(message) => {
                if exists {
                    // An unreachable registry must not block a workspace that
                    // already holds a (possibly stale) copy.
                    spec_go_launch(s, true)
                } else {
                    (
                        ResolverModel { phase: PhaseModel::Finished, ..s },
                        StepModel::Done {
                            result: Err(LaunchErrorModel::VersionQueryFailed { message }),
                        },
                    )
                }
            },
        },
        (
            PhaseModel::AwaitInstalledVersion { exists, latest },
            EventModel::InstalledVersion { version },
        ) => {
            if exists && version == Some(latest) {
                spec_go_launch(s, true)
            } else {
                (
                    ResolverModel { phase: PhaseModel::AwaitDownloadAck { latest }, ..s },
                    StepModel::Pending {
                        action: ActionModel::ReportStatus { status: StatusReport::Downloading },
                    },
                )
            }
        },
        (PhaseModel::AwaitDownloadAck { latest }, EventModel::StatusReported) => (
            ResolverModel { phase: PhaseModel::AwaitInstall, ..s },
            StepModel::Pending {
                action: ActionModel::Install { package: spec_package_name(), version: latest },
            },
        ),
        (PhaseModel::AwaitInstall, EventModel::Installed { result }) => match result {
            Ok(_) => (
                ResolverModel { phase: PhaseModel::AwaitPostInstallCheck, ..s },
                StepModel::Pending {
                    action: ActionModel::CheckLocalFile {
                        path: spec_local_script_path(s.workspace_root),
                    },
                },
            ),
            Err(message) => (
                ResolverModel {
                    phase: PhaseModel::AwaitFallbackCheck { install_error: message },
                    ..s
                },
                StepModel::Pending {
                    action: ActionModel::CheckLocalFile {
                        path: spec_local_script_path(s.workspace_root),
                    },
                },
            ),
        },
        (PhaseModel::AwaitPostInstallCheck, EventModel::LocalFile { exists }) => {
            if exists {
                spec_go_launch(s, true)
            } else {
                (
                    ResolverModel { phase: PhaseModel::Finished, ..s },
                    StepModel::Done {
                        result: Err(LaunchErrorModel::InstalledPathMissingAfterInstall),
                    },
                )
            }
        },
        (PhaseModel::AwaitFallbackCheck { install_error }, EventModel::LocalFile { exists }) => {
            if exists {
                // Installation failed, but a stale copy is still usable.
                spec_go_launch(s, true)
            } else {
                (
                    ResolverModel { phase: PhaseModel::Finished, ..s },
                    StepModel::Done {
                        result: Err(LaunchErrorModel::InstallFailed { message: install_error }),
                    },
                )
            }
        },
        (PhaseModel::AwaitSelfLocation, EventModel::SelfLocation { directory }) => match directory {
            Some(dir) => (
                ResolverModel { phase: PhaseModel::AwaitInterpreter { directory: dir }, ..s },
                StepModel::Pending { action: ActionModel::LocateInterpreter },
            ),
            None => (
                ResolverModel { phase: PhaseModel::Finished, ..s },
                StepModel::Done { result: Err(LaunchErrorModel::SelfLocationUnavailable) },
            ),
        },
        (PhaseModel::AwaitInterpreter { directory }, EventModel::Interpreter { path }) => (
            ResolverModel { phase: PhaseModel::Finished, ..s },
            StepModel::Done {
                result: Ok(
                    spec_bridged_descriptor(
                        path,
                        spec_join(directory, spec_bridge_script_rel()),
                        spec_local_script_path(s.workspace_root),
                    ),
                ),
            },
        ),
        _ => arbitrary(),
    }
}

/// Move the phase out of its slot, leaving `Finished` behind.
fn take_phase(slot: &mut Phase) -> (r: Phase)
    ensures
        r == *old(slot),
        *final(slot) == Phase::Finished,
{
    let mut taken = Phase::Finished;
    core::mem::swap(slot, &mut taken);
    taken
}

impl Resolver {
    /// Begin a resolution of `identity` for the workspace rooted at
    /// `workspace_root`, under the session's provisioning state.
    pub fn start(identity: &str, workspace_root: &str, session: &ProvisionState) -> (r: (
        Resolver,
        Step,
    ))
        ensures
            r.0@ == start_spec(identity@, workspace_root@, session.confirmed_present).0,
            r.1@ == start_spec(identity@, workspace_root@, session.confirmed_present).1,
    {
        let root = workspace_root.to_owned();
        if str_eq(identity, server_identity()) {
            let resolver = Resolver {
                phase: Phase::AwaitPathLookup,
                workspace_root: root,
                confirmed_present: session.confirmed_present,
            };
            let step = Step::Pending {
                action: Action::LookupOnPath { name: identity.to_owned() },
            };
            proof {
                assert(resolver@ =~~= start_spec(
                    identity@,
                    workspace_root@,
                    session.confirmed_present,
                ).0);
                assert(step@ =~~= start_spec(
                    identity@,
                    workspace_root@,
                    session.confirmed_present,
                ).1);
            }
            (resolver, step)
        } else {
            let resolver = Resolver {
                phase: Phase::Finished,
                workspace_root: root,
                confirmed_present: session.confirmed_present,
            };
            let step = Step::Done {
                result: Err(LaunchError::UnknownServerIdentity { id: identity.to_owned() }),
            };
            proof {
                assert(resolver@ =~~= start_spec(
                    identity@,
                    workspace_root@,
                    session.confirmed_present,
                ).0);
                assert(step@ =~~= start_spec(
                    identity@,
                    workspace_root@,
                    session.confirmed_present,
                ).1);
            }
            (resolver, step)
        }
    }

    /// Whether `event` is the kind of outcome the resolver is waiting for.
    pub fn accepts(&self, event: &Event) -> (r: bool)
        ensures
            r == expects(self@.phase, event@),
    {
        match (&self.phase, event) {
            (Phase::AwaitPathLookup, Event::PathLookup { .. }) => true,
            (Phase::AwaitLocalCheck, Event::LocalFile { .. }) => true,
            (Phase::AwaitCheckingAck { .. }, Event::StatusReported) => true,
            (Phase::AwaitLatestVersion { .. }, Event::LatestVersion { .. }) => true,
            (Phase::AwaitInstalledVersion { .. }, Event::InstalledVersion { .. }) => true,
            (Phase::AwaitDownloadAck { .. }, Event::StatusReported) => true,
            (Phase::AwaitInstall, Event::Installed { .. }) => true,
            (Phase::AwaitPostInstallCheck, Event::LocalFile { .. }) => true,
            (Phase::AwaitFallbackCheck { .. }, Event::LocalFile { .. }) => true,
            (Phase::AwaitSelfLocation, Event::SelfLocation { .. }) => true,
            (Phase::AwaitInterpreter { .. }, Event::Interpreter { .. }) => true,
            _ => false,
        }
    }

    /// Feed the outcome of the last action; receive the next action or the
    /// terminal result.
    pub fn next(&mut self, event: Event) -> (r: Step)
        requires
            expects(old(self)@.phase, event@),
        ensures
            final(self)@ == step_spec(old(self)@, event@).0,
            r@ == step_spec(old(self)@, event@).1,
    {
        let ghost pre = self@;
        let ghost ev = event@;
        let phase = take_phase(&mut self.phase);
        let step = match (phase, event) {
            (Phase::AwaitPathLookup, Event::PathLookup { found }) => match found {
                Some(path) => {
                    self.phase = Phase::Finished;
                    Step::Done { result: Ok(direct_descriptor(path)) }
                },
                None => {
                    let local = join_path(&self.workspace_root, server_script_rel());
                    self.phase = Phase::AwaitLocalCheck;
                    Step::Pending { action: Action::CheckLocalFile { path: local } }
                },
            },
            (Phase::AwaitLocalCheck, Event::LocalFile { exists }) => {
                if self.confirmed_present && exists {
                    self.phase = Phase::AwaitSelfLocation;
                    Step::Pending { action: Action::LocateSelf }
                } else {
                    self.phase = Phase::AwaitCheckingAck { exists };
                    Step::Pending {
                        action: Action::ReportStatus { status: StatusReport::CheckingForUpdate },
                    }
                }
            },
            (Phase::AwaitCheckingAck { exists }, Event::StatusReported) => {
                self.phase = Phase::AwaitLatestVersion { exists };
                Step::Pending {
                    action: Action::QueryLatestVersion { package: package_name().to_owned() },
                }
            },
            (Phase::AwaitLatestVersion { exists }, Event::LatestVersion { result }) => match result {
                Ok(latest) => {
                    self.phase = Phase::AwaitInstalledVersion { exists, latest };
                    Step::Pending {
                        action: Action::QueryInstalledVersion {
                            package: package_name().to_owned(),
                        },
                    }
                },
                Err(message) => {
                    if exists {
                        self.confirmed_present = true;
                        self.phase = Phase::AwaitSelfLocation;
                        Step::Pending { action: Action::LocateSelf }
                    } else {
                        self.phase = Phase::Finished;
                        Step::Done { result: Err(LaunchError::VersionQueryFailed { message }) }
                    }
                },
            },
            (
                Phase::AwaitInstalledVersion { exists, latest },
                Event::InstalledVersion { version },
            ) => {
                let current = exists && (match &version {
                    Some(v) => str_eq(v.as_str(), latest.as_str()),
                    None => false,
                });
                if current {
                    self.confirmed_present = true;
                    self.phase = Phase::AwaitSelfLocation;
                    Step::Pending { action: Action::LocateSelf }
                } else {
                    self.phase = Phase::AwaitDownloadAck { latest };
                    Step::Pending {
                        action: Action::ReportStatus { status: StatusReport::Downloading },
                    }
                }
            },
            (Phase::AwaitDownloadAck { latest }, Event::StatusReported) => {
                self.phase = Phase::AwaitInstall;
                Step::Pending {
                    action: Action::Install {
                        package: package_name().to_owned(),
                        version: latest,
                    },
                }
            },
            (Phase::AwaitInstall, Event::Installed { result }) => {
                let local = join_path(&self.workspace_root, server_script_rel());
                match result {
                    Ok(_) => {
                        self.phase = Phase::AwaitPostInstallCheck;
                    },
                    Err(message) => {
                        self.phase = Phase::AwaitFallbackCheck { install_error: message };
                    },
                }
                Step::Pending { action: Action::CheckLocalFile { path: local } }
            },
            (Phase::AwaitPostInstallCheck, Event::LocalFile { exists }) => {
                if exists {
                    self.confirmed_present = true;
                    self.phase = Phase::AwaitSelfLocation;
                    Step::Pending { action: Action::LocateSelf }
                } else {
                    self.phase = Phase::Finished;
                    Step::Done { result: Err(LaunchError::InstalledPathMissingAfterInstall) }
                }
            },
            (Phase::AwaitFallbackCheck { install_error }, Event::LocalFile { exists }) => {
                if exists {
                    self.confirmed_present = true;
                    self.phase = Phase::AwaitSelfLocation;
                    Step::Pending { action: Action::LocateSelf }
                } else {
                    self.phase = Phase::Finished;
                    Step::Done { result: Err(LaunchError::InstallFailed { message: install_error }) }
                }
            },
            (Phase::AwaitSelfLocation, Event::SelfLocation { directory }) => match directory {
                Some(dir) => {
                    self.phase = Phase::AwaitInterpreter { directory: dir };
                    Step::Pending { action: Action::LocateInterpreter }
                },
                None => {
                    self.phase = Phase::Finished;
                    Step::Done { result: Err(LaunchError::SelfLocationUnavailable) }
                },
            },
            (Phase::AwaitInterpreter { directory }, Event::Interpreter { path }) => {
                let bridge = join_path(&directory, bridge_script_rel());
                let script = join_path(&self.workspace_root, server_script_rel());
                self.phase = Phase::Finished;
                Step::Done { result: Ok(bridged_descriptor(path, bridge, script)) }
            },
            _ => {
                proof {
                    assert(false);
                }
                vstd::pervasive::unreached()
            },
        };
        proof {
            assert(self@ =~~= step_spec(pre, ev).0);
            assert(step@ =~~= step_spec(pre, ev).1);
        }
        step
    }
}

/// Phases in which resolution is settled and only the launch descriptor is
/// still being assembled.
pub open spec fn launch_phase(p: PhaseModel) -> bool {
    ||| p == PhaseModel::AwaitSelfLocation
    ||| p matches PhaseModel::AwaitInterpreter { .. }
    ||| p == PhaseModel::Finished
}

/// Actions that reach the package registry over the network.
pub open spec fn network_action(a: ActionModel) -> bool {
    ||| a matches ActionModel::QueryLatestVersion { .. }
    ||| a matches ActionModel::Install { .. }
}

/// Any identity other than the recognized one fails immediately with
/// `UnknownServerIdentity`: no action is ever issued, and the session state
/// is left as it was.
pub proof fn lemma_unknown_identity_rejected(identity: Seq<char>, root: Seq<char>, confirmed: bool)
    requires
        identity != spec_server_identity(),
    ensures
        start_spec(identity, root, confirmed).1 == (StepModel::Done {
            result: Err::<LaunchDescriptorModel, LaunchErrorModel>(
                LaunchErrorModel::UnknownServerIdentity { id: identity },
            ),
        }),
        start_spec(identity, root, confirmed).0.phase == PhaseModel::Finished,
        start_spec(identity, root, confirmed).0.confirmed_present == confirmed,
{
}

/// The recognized identity is resolved by probing the PATH before anything
/// else, and a PATH hit always ends the call with the direct descriptor:
/// the found executable itself, with the stdio flag as its only argument —
/// regardless of whatever local copy may also exist.
pub proof fn lemma_path_hit_is_direct(
    identity: Seq<char>,
    root: Seq<char>,
    confirmed: bool,
    path: Seq<char>,
)
    requires
        identity == spec_server_identity(),
    ensures
        start_spec(identity, root, confirmed).1 == (StepModel::Pending {
            action: ActionModel::LookupOnPath { name: identity },
        }),
        ({
            let s = start_spec(identity, root, confirmed).0;
            let (s2, step) = step_spec(s, EventModel::PathLookup { found: Some(path) });
            &&& step == StepModel::Done {
                result: Ok::<LaunchDescriptorModel, LaunchErrorModel>(
                    spec_direct_descriptor(path),
                ),
            }
            &&& spec_direct_descriptor(path).command == path
            &&& spec_direct_descriptor(path).args.len() == 1
            &&& spec_direct_descriptor(path).args[0] == crate::launch::spec_stdio_flag()
            &&& s2.phase == PhaseModel::Finished
        }),
{
}

/// On the confirmed warm path — the session flag is set and the expected
/// local file still exists — the resolver goes straight to assembling the
/// launch descriptor.
pub proof fn lemma_warm_path_short_circuits(s: ResolverModel)
    requires
        s.phase == PhaseModel::AwaitLocalCheck,
        s.confirmed_present,
    ensures
        ({
            let (s2, step) = step_spec(s, EventModel::LocalFile { exists: true });
            &&& s2.phase == PhaseModel::AwaitSelfLocation
            &&& step == StepModel::Pending { action: ActionModel::LocateSelf }
        }),
{
}

/// From the launch phases onward no network action is ever issued — with
/// [`lemma_warm_path_short_circuits`], the confirmed warm path involves no
/// version query or installation at all.
pub proof fn lemma_launch_phases_stay_offline(s: ResolverModel, e: EventModel)
    requires
        launch_phase(s.phase),
        expects(s.phase, e),
    ensures
        launch_phase(step_spec(s, e).0.phase),
        !(step_spec(s, e).1 matches StepModel::Pending { action } && network_action(action)),
        !(step_spec(s, e).1 matches StepModel::Pending { action } && action matches
            ActionModel::QueryInstalledVersion { .. }),
{
}

/// When no local copy exists and the registry cannot report the latest
/// version, the call fails with `VersionQueryFailed`: there is nothing to
/// fall back to.
pub proof fn lemma_version_query_failure_is_fatal_without_copy(s: ResolverModel, message: Seq<char>)
    requires
        s.phase == (PhaseModel::AwaitLatestVersion { exists: false }),
    ensures
        step_spec(s, EventModel::LatestVersion { result: Err(message) }).1 == (StepModel::Done {
            result: Err::<LaunchDescriptorModel, LaunchErrorModel>(
                LaunchErrorModel::VersionQueryFailed { message },
            ),
        }),
        (step_spec(s, EventModel::LatestVersion { result: Err(message) }).0.phase
            == PhaseModel::Finished),
{
}

/// A failed installation falls back to an existing (possibly stale) local
/// copy: the call still succeeds, launching the local script bridged through
/// the proxy, and the session is marked confirmed.
pub proof fn lemma_install_failure_falls_back_to_local(
    s: ResolverModel,
    message: Seq<char>,
    directory: Seq<char>,
    interpreter: Seq<char>,
)
    requires
        s.phase == PhaseModel::AwaitInstall,
    ensures
        ({
            let (s1, step1) = step_spec(s, EventModel::Installed { result: Err(message) });
            let (s2, step2) = step_spec(s1, EventModel::LocalFile { exists: true });
            let (s3, step3) = step_spec(s2, EventModel::SelfLocation {
                directory: Some(directory),
            });
            let (s4, step4) = step_spec(s3, EventModel::Interpreter { path: interpreter });
            &&& step1 == StepModel::Pending {
                action: ActionModel::CheckLocalFile {
                    path: spec_local_script_path(s.workspace_root),
                },
            }
            &&& s2.confirmed_present
            &&& s4.confirmed_present
            &&& step4 == StepModel::Done {
                result: Ok::<LaunchDescriptorModel, LaunchErrorModel>(
                    spec_bridged_descriptor(
                        interpreter,
                        spec_join(directory, spec_bridge_script_rel()),
                        spec_local_script_path(s.workspace_root),
                    ),
                ),
            }
        }),
{
}

/// An existing local copy already at the latest version is used as it
/// stands: the session is confirmed and no downloading or installation
/// follows.
pub proof fn lemma_up_to_date_copy_skips_install(s: ResolverModel, latest: Seq<char>)
    requires
        s.phase == (PhaseModel::AwaitInstalledVersion { exists: true, latest }),
    ensures
        ({
            let (s2, step) = step_spec(s, EventModel::InstalledVersion { version: Some(latest) });
            &&& s2.phase == PhaseModel::AwaitSelfLocation
            &&& s2.confirmed_present
            &&& step == StepModel::Pending { action: ActionModel::LocateSelf }
        }),
{
}

/// A missing or stale local copy leads to a downloading report and then an
/// installation of exactly the latest version the registry reported.
pub proof fn lemma_stale_copy_is_reinstalled(
    s: ResolverModel,
    exists: bool,
    latest: Seq<char>,
    version: Option<Seq<char>>,
)
    requires
        s.phase == (PhaseModel::AwaitInstalledVersion { exists, latest }),
        !(exists && version == Some(latest)),
    ensures
        ({
            let (s1, step1) = step_spec(s, EventModel::InstalledVersion { version });
            let (s2, step2) = step_spec(s1, EventModel::StatusReported);
            &&& step1 == StepModel::Pending {
                action: ActionModel::ReportStatus { status: StatusReport::Downloading },
            }
            &&& step2 == StepModel::Pending {
                action: ActionModel::Install { package: spec_package_name(), version: latest },
            }
            &&& s2.phase == PhaseModel::AwaitInstall
        }),
{
}

/// If installation reports success but the expected file is still absent,
/// the call fails with `InstalledPathMissingAfterInstall` — and it is never
/// retried: the resolver is finished.
pub proof fn lemma_missing_after_install(s: ResolverModel)
    requires
        s.phase == PhaseModel::AwaitPostInstallCheck,
    ensures
        step_spec(s, EventModel::LocalFile { exists: false }).1 == (StepModel::Done {
            result: Err::<LaunchDescriptorModel, LaunchErrorModel>(
                LaunchErrorModel::InstalledPathMissingAfterInstall,
            ),
        }),
        step_spec(s, EventModel::LocalFile { exists: false }).0.phase == PhaseModel::Finished,
{
}

/// A finished resolver is terminal: it waits for no event, so a result —
/// success or error — is never revised. In particular no error is retried.
pub proof fn lemma_finished_is_terminal(e: EventModel)
    ensures
        !expects(PhaseModel::Finished, e),
{
}

/// No transition ever clears the session flag or changes the workspace root:
/// once a resolution has confirmed the server present, the session stays
/// confirmed until restart.
pub proof fn lemma_session_flag_monotone(s: ResolverModel, e: EventModel)
    requires
        expects(s.phase, e),
    ensures
        s.confirmed_present ==> step_spec(s, e).0.confirmed_present,
        step_spec(s, e).0.workspace_root == s.workspace_root,
{
}

} // verus!
