use vstd::prelude::*;
use crate::adapter::{AdapterVersion, DebugAdapterName};

verus! {

/// The archive kinds a release artifact can come as.
pub enum DownloadedFileType {
    Zip,
    GzipTar,
}

/// The host capabilities this library needs from its embedder: local
/// executable search, ephemeral-port reservation, and artifact
/// download/extraction. The host implements this trait; nothing is assumed
/// of the results beyond their types, so every caller in the library is
/// verified against every possible outcome.
pub trait DapDelegate {
    /// Searches the local executable path for `tool` and returns the full
    /// path where the host found it, or `None` when it is absent.
    fn which(&self, tool: &str) -> Option<String>;

    /// Reserves a TCP port that is free at allocation time, for a loopback
    /// rendezvous with a freshly launched backend. Best effort: the port can
    /// be taken by a concurrent allocator between reservation and the
    /// backend's bind. An `Err` carries the cause.
    fn reserve_ephemeral_port(&self) -> Result<u16, String>;

    /// Downloads the release artifact of `version` for the named adapter and
    /// extracts it into a staging location of the managed install area. An
    /// `Err` carries the underlying download or extraction cause.
    fn download_and_extract(
        &self,
        adapter_name: &DebugAdapterName,
        version: &AdapterVersion,
        file_type: DownloadedFileType,
    ) -> Result<(), String>;
}

} // verus!
