use dap_adapters::adapter::{AdapterVersion, DebugAdapterName};
use dap_adapters::delegate::{DapDelegate, DownloadedFileType};
use dap_adapters::errors::DebugAdapterError;
use dap_adapters::go::GoDebugAdapter;
use dap_adapters::installer::InstallStore;

struct Downloader {
    succeeds: bool,
}

impl DapDelegate for Downloader {
    fn which(&self, _tool: &str) -> Option<String> {
        None
    }

    fn reserve_ephemeral_port(&self) -> Result<u16, String> {
        Err("unused".to_string())
    }

    fn download_and_extract(
        &self,
        _adapter_name: &DebugAdapterName,
        _version: &AdapterVersion,
        _file_type: DownloadedFileType,
    ) -> Result<(), String> {
        if self.succeeds {
            Ok(())
        } else {
            Err("connection reset".to_string())
        }
    }
}

fn version() -> AdapterVersion {
    AdapterVersion {
        tag_name: "v1.2.3".to_string(),
        url: "https://example.invalid/delve/v1.2.3.zip".to_string(),
    }
}

#[test]
fn install_publishes_exactly_one_copy() {
    let adapter = GoDebugAdapter;
    let mut store = InstallStore::new();
    adapter
        .install_binary(version(), &Downloader { succeeds: true }, &mut store)
        .unwrap();
    assert_eq!(store.installed, vec!["v1.2.3".to_string()]);
    assert!(store.staged.is_empty());
}

#[test]
fn reinstalling_the_same_version_is_idempotent() {
    let adapter = GoDebugAdapter;
    let mut store = InstallStore::new();
    let delegate = Downloader { succeeds: true };
    adapter.install_binary(version(), &delegate, &mut store).unwrap();
    adapter.install_binary(version(), &delegate, &mut store).unwrap();
    assert_eq!(store.installed, vec!["v1.2.3".to_string()]);
    assert!(store.staged.is_empty());
}

#[test]
fn interleaved_installs_leave_one_install_and_no_staging() {
    let mut store = InstallStore::new();
    let v = version();
    store.begin_install(&v);
    store.begin_install(&v);
    store.publish(&v);
    store.publish(&v);
    assert_eq!(store.installed, vec!["v1.2.3".to_string()]);
    assert!(store.staged.is_empty());
}

#[test]
fn failed_install_changes_nothing() {
    let adapter = GoDebugAdapter;
    let mut store = InstallStore::new();
    let err = adapter
        .install_binary(version(), &Downloader { succeeds: false }, &mut store)
        .unwrap_err();
    assert_eq!(
        err,
        DebugAdapterError::InstallFailure("connection reset".to_string())
    );
    assert_eq!(
        err.message(),
        "failed to install adapter: connection reset".to_string()
    );
    assert!(store.installed.is_empty());
    assert!(store.staged.is_empty());
}

#[test]
fn abandoning_a_staged_copy_restores_the_store() {
    let mut store = InstallStore::new();
    let v = version();
    store.begin_install(&v);
    assert_eq!(store.staged, vec!["v1.2.3".to_string()]);
    store.abandon_install(&v);
    assert!(store.staged.is_empty());
    assert!(store.installed.is_empty());
}
