//! Which part the shim plays, decided from the name it was invoked under.

use vstd::prelude::*;
use vstd::string::*;

verus! {

/// The exit code of a shim that was invoked under a name it does not know.
pub const USAGE_EXIT_CODE: i32 = 137;

/// The part that a shim process plays.
#[derive(Clone, Copy, Debug, PartialEq, Eq, Structural)]
pub enum Role {
    /// The shim of one container, driven from the command line.
    Cli,
    /// The client of the manager daemon.
    ManagerClient,
    /// The manager daemon.
    ManagerDaemon,
}

/// What the process does once it knows how it was invoked.
#[derive(Debug, PartialEq, Eq)]
pub enum Startup {
    /// Print `text` and leave with exit code 0.
    PrintVersion { text: String },
    /// Run the shim of one container under the runtime id `id`.
    RunCli { id: String },
    /// Run the manager's client under the runtime id `id`.
    RunManagerClient { id: String },
    /// Serve the manager on the socket at `address` until terminated.
    RunManagerDaemon { address: String },
    /// Print `message` as an error and leave with `exit_code`.
    Refuse { message: String, exit_code: i32 },
}

/// A `Startup` with its texts as sequences of characters.
pub enum StartupView {
    PrintVersion { text: Seq<char> },
    RunCli { id: Seq<char> },
    RunManagerClient { id: Seq<char> },
    RunManagerDaemon { address: Seq<char> },
    Refuse { message: Seq<char>, exit_code: i32 },
}

impl View for Startup {
    type V = StartupView;

    open spec fn view(&self) -> StartupView {
        match self {
            Startup::PrintVersion { text } => StartupView::PrintVersion { text: text@ },
            Startup::RunCli { id } => StartupView::RunCli { id: id@ },
            Startup::RunManagerClient { id } => StartupView::RunManagerClient { id: id@ },
            Startup::RunManagerDaemon { address } => StartupView::RunManagerDaemon {
                address: address@,
            },
            Startup::Refuse { message, exit_code } => StartupView::Refuse {
                message: message@,
                exit_code: *exit_code,
            },
        }
    }
}

/// The name under which the shim of one container is invoked, for the
/// engine whose lower-case name is `name`.
pub open spec fn cli_name(name: Seq<char>) -> Seq<char> {
    "containerd-shim-"@ + name + "-v1"@
}

/// The name under which the manager's client is invoked.
pub open spec fn client_name(name: Seq<char>) -> Seq<char> {
    "containerd-shim-"@ + name + "d-v1"@
}

/// The name under which the manager daemon is invoked.
pub open spec fn daemon_name(name: Seq<char>) -> Seq<char> {
    "containerd-"@ + name + "d"@
}

/// The runtime id of the shim of one container.
pub open spec fn runtime_id(name: Seq<char>) -> Seq<char> {
    "io.containerd."@ + name + ".v1"@
}

/// The address of the socket on which the manager daemon serves.
pub open spec fn manager_address() -> Seq<char> {
    "unix:///run/io.containerd.wasmwasi.v1/manager.sock"@
}

/// The complaint about an invocation under an unknown name.
pub open spec fn usage_text(name: Seq<char>) -> Seq<char> {
    "error: unrecognized binary name, expected one of "@ + cli_name(name) + ", "@ + client_name(
        name,
    ) + ", or "@ + daemon_name(name) + "."@
}

/// What a request for the version prints: the program's name, then the
/// engine's lower-case name, the version and the revision on a line each,
/// and an empty line.
pub open spec fn version_text(
    identity: Seq<char>,
    name: Seq<char>,
    version: Seq<char>,
    revision: Seq<char>,
) -> Seq<char> {
    identity + ":\n  Runtime: "@ + name + "\n  Version: "@ + version + "\n  Revision: "@
        + revision + "\n\n"@
}

/// The role of a process invoked as `identity`, if that is one of the
/// three names of the engine.
pub open spec fn role_of(identity: Seq<char>, name: Seq<char>) -> Option<Role> {
    if identity == cli_name(name) {
        Some(Role::Cli)
    } else if identity == client_name(name) {
        Some(Role::ManagerClient)
    } else if identity == daemon_name(name) {
        Some(Role::ManagerDaemon)
    } else {
        None
    }
}

/// What a process does that was invoked as `identity` for the engine
/// whose lower-case name is `name`. A request for the version is answered
/// before the name is looked at.
pub open spec fn startup_of(
    identity: Seq<char>,
    name: Seq<char>,
    want_version: bool,
    version: Seq<char>,
    revision: Seq<char>,
) -> StartupView {
    if want_version {
        StartupView::PrintVersion { text: version_text(identity, name, version, revision) }
    } else {
        match role_of(identity, name) {
            Some(Role::Cli) => StartupView::RunCli { id: runtime_id(name) },
            Some(Role::ManagerClient) => StartupView::RunManagerClient { id: client_name(name) },
            Some(Role::ManagerDaemon) => StartupView::RunManagerDaemon {
                address: manager_address(),
            },
            None => StartupView::Refuse { message: usage_text(name), exit_code: USAGE_EXIT_CODE },
        }
    }
}

/// What a process does whose invocation has the base name `identity`, or
/// none. Without a base name there is no role to play: the version is
/// still printed on request, under an empty name, and anything else is
/// refused.
pub open spec fn startup_from(
    identity: Option<Seq<char>>,
    name: Seq<char>,
    want_version: bool,
    version: Seq<char>,
    revision: Seq<char>,
) -> StartupView {
    match identity {
        Some(identity) => startup_of(identity, name, want_version, version, revision),
        None => if want_version {
            StartupView::PrintVersion { text: version_text(""@, name, version, revision) }
        } else {
            StartupView::Refuse { message: usage_text(name), exit_code: USAGE_EXIT_CODE }
        },
    }
}

/// The three names of an engine differ from each other, so an identity has
/// at most one role and the order in which the names are tried does not
/// matter.
pub proof fn lemma_role_names_differ(name: Seq<char>)
    ensures
        cli_name(name) != client_name(name),
        cli_name(name) != daemon_name(name),
        client_name(name) != daemon_name(name),
        forall|identity: Seq<char>|
            (#[trigger] role_of(identity, name) == Some(Role::ManagerClient)) <==> identity
                == client_name(name),
        forall|identity: Seq<char>|
            (#[trigger] role_of(identity, name) == Some(Role::ManagerDaemon)) <==> identity
                == daemon_name(name),
{
    reveal_strlit("containerd-shim-");
    reveal_strlit("containerd-");
    reveal_strlit("-v1");
    reveal_strlit("d-v1");
    reveal_strlit("d");
    assert(cli_name(name).len() == name.len() + 19);
    assert(client_name(name).len() == name.len() + 20);
    assert(daemon_name(name).len() == name.len() + 12);
}

/// The lower-case form of a text, as `str::to_lowercase` gives it.
pub uninterp spec fn lowercased(text: Seq<char>) -> Seq<char>;

/// The base name of a path: its last component as `Path::file_name` gives
/// it, if the path has one.
pub uninterp spec fn file_name_of(path: Seq<char>) -> Option<Seq<char>>;

/// Lower-cases `text` with `str::to_lowercase`.
///
/// Trusted: the result is a function of the text alone.
#[verifier::external_body]
pub(crate) fn lowercase(text: &str) -> (res: String)
    ensures
        res@ == lowercased(text@),
{
    text.to_lowercase()
}

/// Takes the base name of `path` with `std::path::Path::file_name`.
///
/// Trusted: whether the path has a base name, and which, is a function of
/// the path alone.
#[verifier::external_body]
pub(crate) fn file_name(path: &str) -> (res: Option<String>)
    ensures
        res is Some <==> file_name_of(path@) is Some,
        res matches Some(name) ==> file_name_of(path@) == Some(name@),
{
    match std::path::Path::new(path).file_name() {
        Some(name) => Some(name.to_string_lossy().into_owned()),
        None => None,
    }
}

/// Puts `name` between `before` and `after`.
fn wrap_name(before: &str, name: &str, after: &str) -> (text: String)
    ensures
        text@ == before@ + name@ + after@,
{
    let mut text = String::from_str(before);
    text.append(name);
    text.append(after);
    text
}

/// Builds the name under which the shim of one container is invoked.
pub fn cli_name_for(name: &str) -> (text: String)
    ensures
        text@ == cli_name(name@),
{
    wrap_name("containerd-shim-", name, "-v1")
}

/// Builds the name under which the manager's client is invoked.
pub fn client_name_for(name: &str) -> (text: String)
    ensures
        text@ == client_name(name@),
{
    wrap_name("containerd-shim-", name, "d-v1")
}

/// Builds the name under which the manager daemon is invoked.
pub fn daemon_name_for(name: &str) -> (text: String)
    ensures
        text@ == daemon_name(name@),
{
    wrap_name("containerd-", name, "d")
}

/// Builds the complaint about an invocation under an unknown name.
pub fn usage_error(name: &str) -> (text: String)
    ensures
        text@ == usage_text(name@),
{
    let mut text = String::from_str("error: unrecognized binary name, expected one of ");
    text.append(cli_name_for(name).as_str());
    text.append(", ");
    text.append(client_name_for(name).as_str());
    text.append(", or ");
    text.append(daemon_name_for(name).as_str());
    text.append(".");
    text
}

/// Builds what a request for the version prints.
pub fn version_banner(identity: &str, name: &str, version: &str, revision: &str) -> (text: String)
    ensures
        text@ == version_text(identity@, name@, version@, revision@),
{
    let mut text = String::from_str(identity);
    text.append(":\n  Runtime: ");
    text.append(name);
    text.append("\n  Version: ");
    text.append(version);
    text.append("\n  Revision: ");
    text.append(revision);
    text.append("\n\n");
    text
}

/// Selects the role of a process invoked as `identity` for the engine
/// whose lower-case name is `name`. The match is exact; any other identity
/// is refused with the complaint that lists the three names.
pub fn select_role(identity: &str, name: &str) -> (res: Result<Role, String>)
    ensures
        match role_of(identity@, name@) {
            Some(role) => res == Ok::<Role, String>(role),
            None => res matches Err(message) && message@ == usage_text(name@),
        },
{
    let invoked = String::from_str(identity);
    if invoked == cli_name_for(name) {
        Ok(Role::Cli)
    } else if invoked == client_name_for(name) {
        Ok(Role::ManagerClient)
    } else if invoked == daemon_name_for(name) {
        Ok(Role::ManagerDaemon)
    } else {
        Err(usage_error(name))
    }
}

/// Decides what a process does that was invoked as `identity` for the
/// engine whose lower-case name is `name`.
pub fn plan_startup(
    identity: &str,
    name: &str,
    want_version: bool,
    version: &str,
    revision: &str,
) -> (plan: Startup)
    ensures
        plan@ == startup_of(identity@, name@, want_version, version@, revision@),
{
    if want_version {
        return Startup::PrintVersion { text: version_banner(identity, name, version, revision) };
    }
    match select_role(identity, name) {
        Ok(Role::Cli) => Startup::RunCli { id: wrap_name("io.containerd.", name, ".v1") },
        Ok(Role::ManagerClient) => Startup::RunManagerClient { id: client_name_for(name) },
        Ok(Role::ManagerDaemon) => Startup::RunManagerDaemon {
            address: String::from_str("unix:///run/io.containerd.wasmwasi.v1/manager.sock"),
        },
        Err(message) => Startup::Refuse { message, exit_code: USAGE_EXIT_CODE },
    }
}

/// Decides what a process does that was started with `argv0` as its first
/// argument, for the runtime `runtime`: its identity is the base name of
/// `argv0`, whole, and the names it may go by are built from the runtime's
/// name in lower case.
pub fn startup(argv0: &str, runtime: &str, want_version: bool, version: &str, revision: &str) -> (plan:
    Startup)
    ensures
        plan@ == startup_from(
            file_name_of(argv0@),
            lowercased(runtime@),
            want_version,
            version@,
            revision@,
        ),
{
    let name = lowercase(runtime);
    match file_name(argv0) {
        Some(identity) => plan_startup(
            identity.as_str(),
            name.as_str(),
            want_version,
            version,
            revision,
        ),
        None => {
            if want_version {
                Startup::PrintVersion { text: version_banner("", name.as_str(), version, revision) }
            } else {
                Startup::Refuse { message: usage_error(name.as_str()), exit_code: USAGE_EXIT_CODE }
            }
        },
    }
}

} // verus!
