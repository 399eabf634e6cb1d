use vstd::prelude::*;
use crate::delegate::DapDelegate;
use crate::errors::DebugAdapterError;
use crate::transport::{TcpArguments, TcpHost};

verus! {

/// An opaque string identifier uniquely naming a backend variant.
#[derive(Debug, PartialEq, Eq)]
pub struct DebugAdapterName(pub String);

/// An attach request: debug an already-running process.
pub struct AttachConfig {
    /// The identifier of the process to attach to.
    pub process_id: u32,
}

/// A launch request: start a new process under the debugger.
pub struct LaunchConfig {
    /// Path of the program to launch.
    pub program: String,
    /// Working directory for the launched program.
    pub cwd: String,
    /// Command-line arguments for the launched program.
    pub args: Vec<String>,
}

/// The two debug-session start modes.
pub enum DebugRequestType {
    Attach(AttachConfig),
    Launch(LaunchConfig),
}

/// The normalized, backend-agnostic description of a debug-session request.
/// Supplied once per session start by the task/configuration layer and never
/// mutated by this library.
pub struct DebugAdapterConfig {
    /// Which backend variant the session selects.
    pub adapter: DebugAdapterName,
    /// Attach or launch, with the mode's parameters.
    pub request: DebugRequestType,
    /// Whether the backend should stop at the program's entry point.
    /// Absence is meaningfully different from `Some(false)`: only a present
    /// value is forwarded to the backend.
    pub stop_on_entry: Option<bool>,
    /// A partially-specified TCP connection preference, when the session
    /// configures one.
    pub tcp_connection: Option<TcpHost>,
}

/// An identifier plus download-location metadata for one installable release
/// of a backend binary. Exists only transiently during an install.
#[derive(Debug, PartialEq, Eq)]
pub struct AdapterVersion {
    /// The release tag naming the version.
    pub tag_name: String,
    /// Where the release artifact is downloaded from.
    pub url: String,
}

/// The resolved, ready-to-execute descriptor of a backend: what to spawn and,
/// for socket-based backends, where to connect. Immutable once computed.
#[derive(Debug, PartialEq, Eq)]
pub struct DebugAdapterBinary {
    /// Executable path or command.
    pub command: String,
    /// Arguments handed to the executable.
    pub arguments: Option<Vec<String>>,
    /// Working directory for the spawned backend.
    pub cwd: Option<String>,
    /// Environment overrides for the spawned backend.
    pub envs: Option<Vec<(String, String)>>,
    /// When present, the caller must connect a TCP client to these
    /// parameters within the timeout instead of speaking over the process's
    /// standard streams.
    pub connection: Option<TcpArguments>,
}

/// Locates the executable for a backend: a user-supplied path, when present,
/// always wins and is used without any search; otherwise the local executable
/// search path is consulted for the backend's fixed tool name, and a missing
/// tool is reported with a "not found" error carrying the searched name.
pub fn resolve_binary_path<D: DapDelegate>(
    delegate: &D,
    user_installed_path: Option<String>,
    tool: &str,
) -> (r: Result<String, DebugAdapterError>)
    ensures
        user_installed_path matches Some(p) ==> r == Ok::<String, DebugAdapterError>(p),
        r matches Err(e) ==> {
            &&& user_installed_path is None
            &&& e matches DebugAdapterError::NotFound(t) && t@ == tool@
        },
{
    match user_installed_path {
        Some(p) => Ok(p),
        None => match delegate.which(tool) {
            Some(found) => Ok(found),
            None => Err(DebugAdapterError::NotFound(tool.to_owned())),
        },
    }
}

} // verus!
