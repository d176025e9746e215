//! Launch descriptors, the error taxonomy, and the fixed names and paths of
//! the server resolution machinery.

use vstd::prelude::*;
use vstd::string::StringExecFns;

verus! {

/// The one server identity this library recognizes.
pub open spec fn spec_server_identity() -> Seq<char> {
    "intelephense"@
}

/// The package, in the external package registry, that provides the server.
pub open spec fn spec_package_name() -> Seq<char> {
    "intelephense"@
}

/// Path of the locally installed server entry script, relative to the
/// workspace root.
pub open spec fn spec_server_script_rel() -> Seq<char> {
    "node_modules/intelephense/lib/intelephense.js"@
}

/// Path of the bridging proxy script, relative to the extension's own
/// installation directory.
pub open spec fn spec_bridge_script_rel() -> Seq<char> {
    "lsp-proxy/proxy.js"@
}

/// Flag that puts a directly runnable server into stdio streaming mode.
pub open spec fn spec_stdio_flag() -> Seq<char> {
    "--stdio"@
}

pub fn server_identity() -> (r: &'static str)
    ensures
        r@ == spec_server_identity(),
{
    "intelephense"
}

pub fn package_name() -> (r: &'static str)
    ensures
        r@ == spec_package_name(),
{
    "intelephense"
}

pub fn server_script_rel() -> (r: &'static str)
    ensures
        r@ == spec_server_script_rel(),
{
    "node_modules/intelephense/lib/intelephense.js"
}

pub fn bridge_script_rel() -> (r: &'static str)
    ensures
        r@ == spec_bridge_script_rel(),
{
    "lsp-proxy/proxy.js"
}

pub fn stdio_flag() -> (r: &'static str)
    ensures
        r@ == spec_stdio_flag(),
{
    "--stdio"
}

/// A path `rel` interpreted under a directory `base`, with a single
/// separator in between.
pub open spec fn spec_join(base: Seq<char>, rel: Seq<char>) -> Seq<char> {
    base + "/"@ + rel
}

pub fn join_path(base: &String, rel: &str) -> (r: String)
    ensures
        r@ == spec_join(base@, rel@),
{
    base.clone().concat("/").concat(rel)
}

/// Character-for-character equality of two strings.
pub(crate) fn str_eq(a: &str, b: &str) -> (r: bool)
    ensures
        r == (a@ == b@),
{
    a.to_owned() == b.to_owned()
}

/// The concrete process invocation handed back to the hosting runtime, which
/// is responsible for spawning it. Environment overrides default to empty,
/// meaning the child inherits the host environment.
#[derive(Debug)]
pub struct LaunchDescriptor {
    pub command: String,
    pub args: Vec<String>,
    pub env: Vec<(String, String)>,
}

/// Mathematical model of a [`LaunchDescriptor`].
#[verifier::ext_equal]
pub struct LaunchDescriptorModel {
    pub command: Seq<char>,
    pub args: Seq<Seq<char>>,
    pub env: Seq<(Seq<char>, Seq<char>)>,
}

impl View for LaunchDescriptor {
    type V = LaunchDescriptorModel;

    open spec fn view(&self) -> LaunchDescriptorModel {
        LaunchDescriptorModel {
            command: self.command@,
            args: self.args.deep_view(),
            env: self.env.deep_view(),
        }
    }
}

/// Direct invocation: the resolved path is itself runnable as the server and
/// is started with the stdio streaming flag as its only argument.
pub open spec fn spec_direct_descriptor(path: Seq<char>) -> LaunchDescriptorModel {
    LaunchDescriptorModel {
        command: path,
        args: seq![spec_stdio_flag()],
        env: Seq::empty(),
    }
}

/// Bridged invocation: the interpreter runs the bridge script, which in turn
/// drives the (not directly runnable) server script.
pub open spec fn spec_bridged_descriptor(
    interpreter: Seq<char>,
    bridge: Seq<char>,
    script: Seq<char>,
) -> LaunchDescriptorModel {
    LaunchDescriptorModel {
        command: interpreter,
        args: seq![bridge, script],
        env: Seq::empty(),
    }
}

pub fn direct_descriptor(path: String) -> (r: LaunchDescriptor)
    ensures
        r@ == spec_direct_descriptor(path@),
{
    let mut args: Vec<String> = Vec::new();
    args.push(stdio_flag().to_owned());
    let r = LaunchDescriptor { command: path, args, env: Vec::new() };
    proof {
        assert(r@ =~~= spec_direct_descriptor(path@));
    }
    r
}

pub fn bridged_descriptor(interpreter: String, bridge: String, script: String) -> (r:
    LaunchDescriptor)
    ensures
        r@ == spec_bridged_descriptor(interpreter@, bridge@, script@),
{
    let ghost bridge_chars = bridge@;
    let ghost script_chars = script@;
    let mut args: Vec<String> = Vec::new();
    args.push(bridge);
    args.push(script);
    let r = LaunchDescriptor { command: interpreter, args, env: Vec::new() };
    proof {
        assert(r@ =~~= spec_bridged_descriptor(interpreter@, bridge_chars, script_chars));
    }
    r
}

/// Why a resolution call failed. Every variant is terminal: the library never
/// retries. Variants that report a collaborator failure retain the
/// collaborator's human-readable message.
#[derive(Debug)]
pub enum LaunchError {
    /// The requested server identity is not the one recognized identity.
    UnknownServerIdentity { id: String },
    /// No local copy exists and the package registry could not report the
    /// latest version.
    VersionQueryFailed { message: String },
    /// Installation failed and no local copy exists to fall back to.
    InstallFailed { message: String },
    /// Installation reported success, yet the expected local file is absent.
    InstalledPathMissingAfterInstall,
    /// The extension's own installation directory could not be determined, so
    /// no bridge path can be computed.
    SelfLocationUnavailable,
}

/// Mathematical model of a [`LaunchError`].
pub enum LaunchErrorModel {
    UnknownServerIdentity { id: Seq<char> },
    VersionQueryFailed { message: Seq<char> },
    InstallFailed { message: Seq<char> },
    InstalledPathMissingAfterInstall,
    SelfLocationUnavailable,
}

impl View for LaunchError {
    type V = LaunchErrorModel;

    open spec fn view(&self) -> LaunchErrorModel {
        match self {
            LaunchError::UnknownServerIdentity { id } => LaunchErrorModel::UnknownServerIdentity {
                id: id@,
            },
            LaunchError::VersionQueryFailed { message } => LaunchErrorModel::VersionQueryFailed {
                message: message@,
            },
            LaunchError::InstallFailed { message } => LaunchErrorModel::InstallFailed {
                message: message@,
            },
            LaunchError::InstalledPathMissingAfterInstall => LaunchErrorModel::InstalledPathMissingAfterInstall,
            LaunchError::SelfLocationUnavailable => LaunchErrorModel::SelfLocationUnavailable,
        }
    }
}

/// The human-readable text of each error.
pub open spec fn spec_describe_error(e: LaunchErrorModel) -> Seq<char> {
    match e {
        LaunchErrorModel::UnknownServerIdentity { id } => "unknown language server: "@ + id,
        LaunchErrorModel::VersionQueryFailed { message } => message,
        LaunchErrorModel::InstallFailed { message } => message,
        LaunchErrorModel::InstalledPathMissingAfterInstall => "installed package 'intelephense' did not contain expected path 'node_modules/intelephense/lib/intelephense.js'"@,
        LaunchErrorModel::SelfLocationUnavailable => "unable to determine the extension's own installation directory"@,
    }
}

impl LaunchError {
    /// A human-readable message sufficient to diagnose the cause.
    pub fn describe(&self) -> (r: String)
        ensures
            r@ == spec_describe_error(self@),
    {
        match self {
            LaunchError::UnknownServerIdentity { id } => {
                "unknown language server: ".to_owned().concat(id.as_str())
            },
            LaunchError::VersionQueryFailed { message } => message.clone(),
            LaunchError::InstallFailed { message } => message.clone(),
            LaunchError::InstalledPathMissingAfterInstall => {
                "installed package 'intelephense' did not contain expected path 'node_modules/intelephense/lib/intelephense.js'".to_owned()
            },
            LaunchError::SelfLocationUnavailable => {
                "unable to determine the extension's own installation directory".to_owned()
            },
        }
    }
}

} // verus!
