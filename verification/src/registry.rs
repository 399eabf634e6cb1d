use vstd::prelude::*;
use vstd::string::StringExecFns;
use crate::adapter::{AdapterVersion, DebugAdapterBinary, DebugAdapterConfig, DebugAdapterName};
use crate::delegate::DapDelegate;
use crate::errors::DebugAdapterError;
use crate::go::{
    go_binary_err, go_binary_ok, spec_request_args, GoDebugAdapter,
};
use crate::installer::{spec_begin_install, spec_publish, InstallStore};
use crate::payload::RequestPayload;
use crate::transport::negotiation_decided;

verus! {

/// The closed set of supported backend variants, behind one uniform handle.
/// Each variant fills in its backend-specific constants; dispatch is a match
/// on the tag, with the variant's own contract on every operation.
#[derive(Debug, PartialEq, Eq)]
pub enum DebugAdapterVariant {
    Go(GoDebugAdapter),
}

/// Maps a configured backend name to its concrete implementation; a name no
/// variant answers to is a capability mismatch.
pub fn build_adapter(name: &DebugAdapterName) -> (r: Result<
    DebugAdapterVariant,
    DebugAdapterError,
>)
    ensures
        name.0@ == GoDebugAdapter::spec_adapter_name() ==> (r matches Ok(v) && v is Go),
        name.0@ != GoDebugAdapter::spec_adapter_name() ==> r == Err::<
            DebugAdapterVariant,
            DebugAdapterError,
        >(DebugAdapterError::UnsupportedOperation),
{
    let go_name = String::from_str("Delve");
    if name.0 == go_name {
        Ok(DebugAdapterVariant::Go(GoDebugAdapter))
    } else {
        Err(DebugAdapterError::UnsupportedOperation)
    }
}

impl DebugAdapterVariant {
    /// The variant's stable identifier.
    pub fn name(&self) -> (r: DebugAdapterName)
        ensures
            self is Go ==> r.0@ == GoDebugAdapter::spec_adapter_name(),
    {
        match self {
            DebugAdapterVariant::Go(adapter) => adapter.name(),
        }
    }

    /// Produces the ready-to-run binary descriptor for this variant.
    pub fn get_binary<D: DapDelegate>(
        &self,
        delegate: &D,
        config: &DebugAdapterConfig,
        user_installed_path: Option<String>,
        user_env: Option<Vec<(String, String)>>,
    ) -> (r: Result<DebugAdapterBinary, DebugAdapterError>)
        ensures
            self is Go ==> {
                &&& (r matches Ok(binary) ==> go_binary_ok(
                    *config,
                    user_installed_path,
                    user_env,
                    binary,
                ))
                &&& (r matches Err(e) ==> go_binary_err(*config, user_installed_path, e))
                &&& (user_installed_path is Some && negotiation_decided(config.tcp_connection)
                    ==> r is Ok)
            },
    {
        match self {
            DebugAdapterVariant::Go(adapter) => adapter.get_binary(
                delegate,
                config,
                user_installed_path,
                user_env,
            ),
        }
    }

    /// Queries the release catalog for this variant's newest version.
    pub fn fetch_latest_adapter_version<D: DapDelegate>(&self, delegate: &D) -> (r: Result<
        AdapterVersion,
        DebugAdapterError,
    >)
        ensures
            self is Go ==> r == Err::<AdapterVersion, DebugAdapterError>(
                DebugAdapterError::UnsupportedOperation,
            ),
    {
        match self {
            DebugAdapterVariant::Go(adapter) => adapter.fetch_latest_adapter_version(delegate),
        }
    }

    /// Installs the named version into the managed install area.
    pub fn install_binary<D: DapDelegate>(
        &self,
        version: AdapterVersion,
        delegate: &D,
        store: &mut InstallStore,
    ) -> (r: Result<(), DebugAdapterError>)
        requires
            old(store).wf(),
        ensures
            final(store).wf(),
            r matches Ok(u) ==> final(store).abs() == spec_publish(
                spec_begin_install(old(store).abs(), version.tag_name@),
                version.tag_name@,
            ) && final(store).is_installed(version.tag_name@),
            r matches Err(e) ==> final(store).abs() == old(store).abs()
                && e is InstallFailure,
    {
        match self {
            DebugAdapterVariant::Go(adapter) => adapter.install_binary(version, delegate, store),
        }
    }

    /// Resolves a binary assumed to be present already.
    pub fn get_installed_binary<D: DapDelegate>(
        &self,
        delegate: &D,
        config: &DebugAdapterConfig,
        user_installed_path: Option<String>,
        user_env: Option<Vec<(String, String)>>,
    ) -> (r: Result<DebugAdapterBinary, DebugAdapterError>)
        ensures
            self is Go ==> {
                &&& (r matches Ok(binary) ==> go_binary_ok(
                    *config,
                    user_installed_path,
                    user_env,
                    binary,
                ))
                &&& (r matches Err(e) ==> go_binary_err(*config, user_installed_path, e))
                &&& (user_installed_path is Some && negotiation_decided(config.tcp_connection)
                    ==> r is Ok)
            },
    {
        match self {
            DebugAdapterVariant::Go(adapter) => adapter.get_installed_binary(
                delegate,
                config,
                user_installed_path,
                user_env,
            ),
        }
    }

    /// Builds the protocol request payload for this variant.
    pub fn request_args(&self, config: &DebugAdapterConfig) -> (r: RequestPayload)
        ensures
            r.wf(),
            self is Go ==> r@ == spec_request_args(*config),
    {
        match self {
            DebugAdapterVariant::Go(adapter) => adapter.request_args(config),
        }
    }
}

} // verus!
