use vstd::prelude::*;
use vstd::string::StringExecFns;

verus! {

/// Everything that can go wrong while resolving, installing, or connecting to
/// a debug-adapter backend. Every error is scoped to a single debug-session
/// start attempt; none is fatal to the host.
#[derive(Debug, PartialEq, Eq)]
pub enum DebugAdapterError {
    /// The backend tool was absent from the local executable search path and
    /// no user-supplied path was given. Carries the searched tool name.
    NotFound(String),
    /// The requested capability is not offered by this backend variant
    /// (for example, version fetch on a backend provided by the local
    /// system toolchain).
    UnsupportedOperation,
    /// Downloading or extracting a release artifact failed. Carries the
    /// underlying cause reported by the host delegate.
    InstallFailure(String),
    /// Transport parameters could not be resolved (no free port, or a
    /// malformed connection preference). Carries the cause.
    TransportNegotiationFailure(String),
}

impl DebugAdapterError {
    /// What `message` returns for each error value.
    pub open spec fn spec_message(self) -> Seq<char> {
        match self {
            DebugAdapterError::NotFound(tool) => tool@ + " not found in path"@,
            DebugAdapterError::UnsupportedOperation => "operation not supported by this adapter"@,
            DebugAdapterError::InstallFailure(cause) => "failed to install adapter: "@ + cause@,
            DebugAdapterError::TransportNegotiationFailure(cause) => {
                "failed to negotiate transport: "@ + cause@
            },
        }
    }

    /// A human-readable description, suitable for direct user display.
    pub fn message(&self) -> (r: String)
        ensures
            r@ == self.spec_message(),
    {
        match self {
            DebugAdapterError::NotFound(tool) => {
                let s = tool.clone();
                s.concat(" not found in path")
            },
            DebugAdapterError::UnsupportedOperation => {
                String::from_str("operation not supported by this adapter")
            },
            DebugAdapterError::InstallFailure(cause) => {
                let s = String::from_str("failed to install adapter: ");
                s.concat(cause.as_str())
            },
            DebugAdapterError::TransportNegotiationFailure(cause) => {
                let s = String::from_str("failed to negotiate transport: ");
                s.concat(cause.as_str())
            },
        }
    }
}

} // verus!
