use vstd::prelude::*;
use vstd::string::StringExecFns;
use crate::adapter::{
    resolve_binary_path, AdapterVersion, DebugAdapterBinary, DebugAdapterConfig, DebugAdapterName,
    DebugRequestType,
};
use crate::decimal::spec_decimal;
use crate::delegate::{DapDelegate, DownloadedFileType};
use crate::errors::DebugAdapterError;
use crate::installer::{spec_begin_install, spec_publish, InstallStore};
use crate::payload::{PayloadValue, RequestPayload, SpecValue};
use crate::transport::{
    configure_tcp_connection, format_address, negotiated_from, negotiation_decided, TcpArguments,
};

verus! {

/// The Go backend: the Delve debugger, spoken to over a TCP socket. A
/// local-tool variant: the `dlv` executable is expected on the local search
/// path (or at a user-supplied path), never self-installed.
#[derive(Debug, PartialEq, Eq)]
pub struct GoDebugAdapter;

/// The request body this backend expects, before the optional stop-on-entry
/// preference: an attach request carries the target process identifier under
/// `processId`; a launch request carries the program path, working directory,
/// and argument list under `program`, `cwd`, and `args`.
pub open spec fn spec_request_body(request: DebugRequestType) -> Map<Seq<char>, SpecValue> {
    match request {
        DebugRequestType::Attach(attach) => Map::empty().insert(
            "processId"@,
            SpecValue::Number(attach.process_id as u64),
        ),
        DebugRequestType::Launch(launch) => Map::empty().insert(
            "program"@,
            SpecValue::Str(launch.program@),
        ).insert("cwd"@, SpecValue::Str(launch.cwd@)).insert(
            "args"@,
            SpecValue::StrList(launch.args.deep_view()),
        ),
    }
}

/// The full request payload: the mode's body, plus `stopOnEntry` exactly
/// when the configuration carries the preference — an absent preference
/// emits no key at all.
pub open spec fn spec_request_args(config: DebugAdapterConfig) -> Map<Seq<char>, SpecValue> {
    match config.stop_on_entry {
        Some(stop) => spec_request_body(config.request).insert(
            "stopOnEntry"@,
            SpecValue::Bool(stop),
        ),
        None => spec_request_body(config.request),
    }
}

/// What a successfully resolved Delve binary descriptor looks like: the
/// command is the user-supplied path when one was given; there is no working
/// directory override; the environment overrides are passed through; the
/// transport is negotiated from the session's connection preference; and the
/// arguments select the protocol sub-mode and pass the negotiated listen
/// address, exactly `["dap", "--listen", "host:port"]`.
pub open spec fn go_binary_ok(
    config: DebugAdapterConfig,
    user_installed_path: Option<String>,
    user_env: Option<Vec<(String, String)>>,
    binary: DebugAdapterBinary,
) -> bool {
    &&& (user_installed_path matches Some(p) ==> binary.command == p)
    &&& binary.cwd is None
    &&& binary.envs == user_env
    &&& binary.connection matches Some(conn)
    &&& negotiated_from(config.tcp_connection, binary.connection.unwrap())
    &&& binary.arguments matches Some(args)
    &&& binary.arguments.unwrap()@.len() == 3
    &&& binary.arguments.unwrap()@[0]@ == "dap"@
    &&& binary.arguments.unwrap()@[1]@ == "--listen"@
    &&& binary.arguments.unwrap()@[2]@ == binary.connection.unwrap().host@ + ":"@ + spec_decimal(
        binary.connection.unwrap().port as nat,
    )
}

/// The errors resolution can end in: the tool was not on the search path and
/// no user path was given, or the transport could not be negotiated — the
/// latter only when the connection preference did not decide the negotiation
/// by itself.
pub open spec fn go_binary_err(
    config: DebugAdapterConfig,
    user_installed_path: Option<String>,
    e: DebugAdapterError,
) -> bool {
    match e {
        DebugAdapterError::NotFound(tool) => user_installed_path is None && tool@ == "dlv"@,
        DebugAdapterError::TransportNegotiationFailure(_) => !negotiation_decided(
            config.tcp_connection,
        ),
        _ => false,
    }
}

/// Assembles the ready-to-run Delve descriptor from a resolved command and
/// negotiated transport parameters: the command and the environment
/// overrides are passed through unchanged, the connection carries exactly
/// the negotiated parameters, and the arguments select the protocol
/// sub-mode and pass the negotiated listen address.
pub fn go_binary_descriptor(
    command: String,
    tcp: TcpArguments,
    user_env: Option<Vec<(String, String)>>,
) -> (binary: DebugAdapterBinary)
    ensures
        binary.command == command,
        binary.cwd is None,
        binary.envs == user_env,
        binary.connection == Some(tcp),
        binary.arguments matches Some(args) && args@.len() == 3,
        binary.arguments.unwrap()@[0]@ == "dap"@,
        binary.arguments.unwrap()@[1]@ == "--listen"@,
        binary.arguments.unwrap()@[2]@ == tcp.host@ + ":"@ + spec_decimal(tcp.port as nat),
{
    let address = format_address(&tcp.host, tcp.port);
    let mut arguments: Vec<String> = Vec::new();
    arguments.push(String::from_str("dap"));
    arguments.push(String::from_str("--listen"));
    arguments.push(address);
    DebugAdapterBinary {
        command,
        arguments: Some(arguments),
        cwd: None,
        envs: user_env,
        connection: Some(tcp),
    }
}

impl GoDebugAdapter {
    /// This backend's stable identifier.
    pub open spec fn spec_adapter_name() -> Seq<char> {
        "Delve"@
    }

    /// The executable searched for on the local path.
    pub open spec fn spec_tool_name() -> Seq<char> {
        "dlv"@
    }

    /// Stable, deterministic backend identifier.
    pub fn name(&self) -> (r: DebugAdapterName)
        ensures
            r.0@ == Self::spec_adapter_name(),
    {
        DebugAdapterName(String::from_str("Delve"))
    }

    /// Produces the ready-to-run binary descriptor. A local-tool variant:
    /// this delegates directly to [`Self::get_installed_binary`] and never
    /// invokes the installer, so offline resolution succeeds whenever the
    /// tool is on the local search path.
    pub fn get_binary<D: DapDelegate>(
        &self,
        delegate: &D,
        config: &DebugAdapterConfig,
        user_installed_path: Option<String>,
        user_env: Option<Vec<(String, String)>>,
    ) -> (r: Result<DebugAdapterBinary, DebugAdapterError>)
        ensures
            r matches Ok(binary) ==> go_binary_ok(*config, user_installed_path, user_env, binary),
            r matches Err(e) ==> go_binary_err(*config, user_installed_path, e),
            user_installed_path is Some && negotiation_decided(config.tcp_connection) ==> r is Ok,
    {
        self.get_installed_binary(delegate, config, user_installed_path, user_env)
    }

    /// Queries the release catalog for the newest version. Unsupported for
    /// this backend — it is provided by the local Go toolchain — so this
    /// always fails with the capability-mismatch error and touches neither
    /// the delegate nor the network.
    pub fn fetch_latest_adapter_version<D: DapDelegate>(&self, _delegate: &D) -> (r: Result<
        AdapterVersion,
        DebugAdapterError,
    >)
        ensures
            r == Err::<AdapterVersion, DebugAdapterError>(DebugAdapterError::UnsupportedOperation),
    {
        Err(DebugAdapterError::UnsupportedOperation)
    }

    /// Downloads and unpacks the named version into the managed install
    /// area: one copy is staged, then either atomically published (on
    /// success) or discarded (on failure), so a failed install changes
    /// nothing and no partial copy is ever visible as installed.
    pub fn install_binary<D: DapDelegate>(
        &self,
        version: AdapterVersion,
        delegate: &D,
        store: &mut InstallStore,
    ) -> (r: Result<(), DebugAdapterError>)
        requires
            old(store).wf(),
        ensures
            final(store).wf(),
            r matches Ok(u) ==> final(store).abs() == spec_publish(
                spec_begin_install(old(store).abs(), version.tag_name@),
                version.tag_name@,
            ) && final(store).is_installed(version.tag_name@),
            r matches Err(e) ==> final(store).abs() == old(store).abs()
                && e is InstallFailure,
    {
        store.begin_install(&version);
        let name = self.name();
        match delegate.download_and_extract(&name, &version, DownloadedFileType::Zip) {
            Ok(u) => {
                store.publish(&version);
                Ok(u)
            },
            Err(cause) => {
                store.abandon_install(&version);
                proof {
                    crate::installer::lemma_abandon_restores(old(store).abs(), version.tag_name@);
                }
                Err(DebugAdapterError::InstallFailure(cause))
            },
        }
    }

    /// Resolves a binary assumed to be present — at `user_installed_path`
    /// when supplied (used as is, with no search), else wherever the local
    /// executable search finds `dlv` — and negotiates the TCP transport the
    /// backend and the caller will rendezvous over. The returned descriptor
    /// launches Delve in its protocol sub-mode listening on the negotiated
    /// `host:port`, and carries the same parameters as its connection so the
    /// caller knows to connect rather than spawn-and-pipe.
    pub fn get_installed_binary<D: DapDelegate>(
        &self,
        delegate: &D,
        config: &DebugAdapterConfig,
        user_installed_path: Option<String>,
        user_env: Option<Vec<(String, String)>>,
    ) -> (r: Result<DebugAdapterBinary, DebugAdapterError>)
        ensures
            r matches Ok(binary) ==> go_binary_ok(*config, user_installed_path, user_env, binary),
            r matches Err(e) ==> go_binary_err(*config, user_installed_path, e),
            user_installed_path is Some && negotiation_decided(config.tcp_connection) ==> r is Ok,
    {
        let command = match resolve_binary_path(delegate, user_installed_path, "dlv") {
            Ok(c) => c,
            Err(e) => {
                return Err(e);
            },
        };
        let tcp = match configure_tcp_connection(&config.tcp_connection, delegate) {
            Ok(t) => t,
            Err(e) => {
                return Err(e);
            },
        };
        Ok(go_binary_descriptor(command, tcp, user_env))
    }

    /// Pure translation of a normalized configuration into this backend's
    /// request payload; no I/O and no failure path. The payload is exactly
    /// [`spec_request_args`] of the configuration: attach emits `processId`
    /// only, launch emits `program`, `cwd` and `args` only, and `stopOnEntry`
    /// appears exactly when the preference is present.
    pub fn request_args(&self, config: &DebugAdapterConfig) -> (r: RequestPayload)
        ensures
            r.wf(),
            r@ == spec_request_args(*config),
    {
        proof {
            reveal_strlit("processId");
            reveal_strlit("program");
            reveal_strlit("cwd");
            reveal_strlit("args");
            reveal_strlit("stopOnEntry");
            assert("processId"@.len() == 9);
            assert("program"@.len() == 7);
            assert("cwd"@.len() == 3);
            assert("args"@.len() == 4);
            assert("stopOnEntry"@.len() == 11);
            assert("cwd"@ != "program"@);
            assert("args"@ != "program"@);
            assert("args"@ != "cwd"@);
            assert("stopOnEntry"@ != "processId"@);
            assert("stopOnEntry"@ != "program"@);
            assert("stopOnEntry"@ != "cwd"@);
            assert("stopOnEntry"@ != "args"@);
        }
        let mut args = RequestPayload::new();
        match &config.request {
            DebugRequestType::Attach(attach) => {
                args.insert("processId", PayloadValue::Number(attach.process_id as u64));
            },
            DebugRequestType::Launch(launch) => {
                args.insert("program", PayloadValue::Str(launch.program.clone()));
                args.insert("cwd", PayloadValue::Str(launch.cwd.clone()));
                args.insert(
                    "args",
                    PayloadValue::StrList(crate::payload::clone_string_vec(&launch.args)),
                );
            },
        }
        proof {
            assert(args@ == spec_request_body(config.request));
        }
        if let Some(stop) = config.stop_on_entry {
            args.insert("stopOnEntry", PayloadValue::Bool(stop));
        }
        args
    }
}

} // verus!
