use vstd::prelude::*;
use vstd::string::StringExecFns;
use crate::decimal::{decimal_string, spec_decimal};
use crate::delegate::DapDelegate;
use crate::errors::DebugAdapterError;

verus! {

/// Default connect timeout in milliseconds, used when the connection
/// preference leaves the timeout unset. A few seconds suits a local
/// subprocess startup.
pub const DEFAULT_CONNECT_TIMEOUT_MS: u64 = 2000;

/// A partially-specified TCP connection preference: any field may be unset
/// and is then defaulted or allocated by the negotiator.
pub struct TcpHost {
    /// Desired host; unset means the local loopback address.
    pub host: Option<String>,
    /// Desired port; must be in the valid TCP port range (1..=65535) when
    /// set — an explicit zero is malformed; unset means a free ephemeral
    /// port is reserved.
    pub port: Option<u16>,
    /// Desired connect timeout in milliseconds; must be positive when set;
    /// unset means [`DEFAULT_CONNECT_TIMEOUT_MS`].
    pub timeout: Option<u64>,
}

impl Default for TcpHost {
    /// The fully unset preference.
    fn default() -> (r: TcpHost)
        ensures
            r.host is None,
            r.port is None,
            r.timeout is None,
    {
        TcpHost { host: None, port: None, timeout: None }
    }
}

/// Fully resolved transport parameters for a socket-based backend. The
/// launched backend listens here and the caller connects here; negotiation
/// itself opens no connection.
#[derive(Debug, PartialEq, Eq)]
pub struct TcpArguments {
    pub host: String,
    /// Always in the valid TCP port range (1..=65535).
    pub port: u16,
    /// Connect timeout in milliseconds; always positive.
    pub timeout: u64,
}

impl TcpArguments {
    pub open spec fn wf(self) -> bool {
        &&& self.timeout > 0
        &&& self.port >= 1
    }
}

/// How negotiated transport parameters relate to the preference they were
/// resolved from: a set host, port, or timeout is kept exactly; an unset
/// host becomes the loopback address; an unset timeout becomes the default.
/// (An unset port is filled with whatever free port was reserved, about
/// which nothing more can be promised.)
pub open spec fn negotiated_from(template: Option<TcpHost>, r: TcpArguments) -> bool {
    &&& match template {
        Some(t) => {
            &&& (t.host matches Some(h) ==> r.host@ == h@)
            &&& (t.host is None ==> r.host@ == "127.0.0.1"@)
            &&& (t.port matches Some(p) ==> r.port == p)
            &&& (t.timeout matches Some(ms) ==> r.timeout == ms)
            &&& (t.timeout is None ==> r.timeout == DEFAULT_CONNECT_TIMEOUT_MS)
        },
        None => {
            &&& r.host@ == "127.0.0.1"@
            &&& r.timeout == DEFAULT_CONNECT_TIMEOUT_MS
        },
    }
    &&& r.wf()
}

/// Whether a preference decides the negotiation by itself, so that success
/// is owed: a valid port is set (no reservation is needed) and neither the
/// port nor the timeout is malformed.
pub open spec fn negotiation_decided(template: Option<TcpHost>) -> bool {
    &&& template matches Some(t)
    &&& template.unwrap().port is Some
    &&& template.unwrap().port != Some(0u16)
    &&& template.unwrap().timeout != Some(0u64)
}

/// Resolves a preference into concrete transport parameters: a set field is
/// kept, an unset host defaults to loopback, an unset timeout to
/// [`DEFAULT_CONNECT_TIMEOUT_MS`], and an unset port is filled with a freshly
/// reserved ephemeral port. Fails only on a malformed preference (a zero
/// timeout, or an explicit port outside the valid TCP port range — zero)
/// or when no valid free port could be reserved; no process is spawned and
/// no connection is opened here.
pub fn configure_tcp_connection<D: DapDelegate>(
    template: &Option<TcpHost>,
    delegate: &D,
) -> (r: Result<TcpArguments, DebugAdapterError>)
    ensures
        r matches Ok(a) ==> negotiated_from(*template, a),
        r matches Err(e) ==> e is TransportNegotiationFailure,
        negotiation_decided(*template) ==> r is Ok,
        (*template matches Some(t) && t.timeout == Some(0u64)) ==> r is Err,
        (*template matches Some(t) && t.port == Some(0u16)) ==> r is Err,
{
    let (host_pref, port_pref, timeout_pref): (&Option<String>, Option<u16>, Option<u64>) =
        match template {
            Some(t) => (&t.host, t.port, t.timeout),
            None => (&None, None, None),
        };
    let timeout: u64 = match timeout_pref {
        Some(ms) => {
            if ms == 0 {
                return Err(DebugAdapterError::TransportNegotiationFailure(
                    String::from_str("timeout must be a positive duration"),
                ));
            }
            ms
        },
        None => DEFAULT_CONNECT_TIMEOUT_MS,
    };
    let port: u16 = match port_pref {
        Some(p) => {
            if p == 0 {
                return Err(DebugAdapterError::TransportNegotiationFailure(
                    String::from_str("port must be in the valid TCP port range"),
                ));
            }
            p
        },
        None => match delegate.reserve_ephemeral_port() {
            Ok(p) => {
                if p == 0 {
                    return Err(DebugAdapterError::TransportNegotiationFailure(
                        String::from_str("the reserved port is outside the valid TCP port range"),
                    ));
                }
                p
            },
            Err(cause) => {
                return Err(DebugAdapterError::TransportNegotiationFailure(cause));
            },
        },
    };
    let host: String = match host_pref {
        Some(h) => h.clone(),
        None => String::from_str("127.0.0.1"),
    };
    Ok(TcpArguments { host, port, timeout })
}

/// The `host:port` listen address handed to a backend.
pub fn format_address(host: &String, port: u16) -> (r: String)
    ensures
        r@ == host@ + ":"@ + spec_decimal(port as nat),
{
    let mut r = host.clone();
    r.append(":");
    let digits = decimal_string(port);
    r.append(digits.as_str());
    proof {
        assert(r@ =~= host@ + ":"@ + spec_decimal(port as nat));
    }
    r
}

} // verus!
