use dap_adapters::adapter::{
    AdapterVersion, AttachConfig, DebugAdapterConfig, DebugAdapterName, DebugRequestType,
};
use dap_adapters::delegate::{DapDelegate, DownloadedFileType};
use dap_adapters::errors::DebugAdapterError;
use dap_adapters::go::GoDebugAdapter;
use dap_adapters::transport::TcpHost;

/// A host delegate with fixed answers.
struct FakeDelegate {
    which_result: Option<String>,
    free_port: Option<u16>,
}

impl DapDelegate for FakeDelegate {
    fn which(&self, _tool: &str) -> Option<String> {
        self.which_result.clone()
    }

    fn reserve_ephemeral_port(&self) -> Result<u16, String> {
        match self.free_port {
            Some(p) => Ok(p),
            None => Err("no free port".to_string()),
        }
    }

    fn download_and_extract(
        &self,
        _adapter_name: &DebugAdapterName,
        _version: &AdapterVersion,
        _file_type: DownloadedFileType,
    ) -> Result<(), String> {
        Ok(())
    }
}

/// A host delegate that fails the test if any capability is exercised.
struct UntouchableDelegate;

impl DapDelegate for UntouchableDelegate {
    fn which(&self, _tool: &str) -> Option<String> {
        panic!("the local-path search must not run");
    }

    fn reserve_ephemeral_port(&self) -> Result<u16, String> {
        panic!("no port must be reserved");
    }

    fn download_and_extract(
        &self,
        _adapter_name: &DebugAdapterName,
        _version: &AdapterVersion,
        _file_type: DownloadedFileType,
    ) -> Result<(), String> {
        panic!("no network access must happen");
    }
}

fn config_with_tcp(tcp_connection: Option<TcpHost>) -> DebugAdapterConfig {
    DebugAdapterConfig {
        adapter: DebugAdapterName("Delve".to_string()),
        request: DebugRequestType::Attach(AttachConfig { process_id: 1 }),
        stop_on_entry: None,
        tcp_connection,
    }
}

#[test]
fn user_installed_path_wins_without_search() {
    let adapter = GoDebugAdapter;
    let config = config_with_tcp(Some(TcpHost {
        host: Some("localhost".to_string()),
        port: Some(4711),
        timeout: Some(1000),
    }));
    let binary = adapter
        .get_installed_binary(
            &UntouchableDelegate,
            &config,
            Some("/custom/dlv".to_string()),
            None,
        )
        .unwrap();
    assert_eq!(binary.command, "/custom/dlv".to_string());
    let conn = binary.connection.unwrap();
    assert_eq!(conn.host, "localhost".to_string());
    assert_eq!(conn.port, 4711);
    assert_eq!(conn.timeout, 1000);
    assert_eq!(
        binary.arguments.unwrap(),
        vec![
            "dap".to_string(),
            "--listen".to_string(),
            "localhost:4711".to_string()
        ]
    );
    assert!(binary.cwd.is_none());
    assert!(binary.envs.is_none());
}

#[test]
fn get_binary_resolves_offline_from_search_path() {
    let adapter = GoDebugAdapter;
    let delegate = FakeDelegate {
        which_result: Some("/usr/local/bin/dlv".to_string()),
        free_port: Some(34567),
    };
    let binary = adapter
        .get_binary(&delegate, &config_with_tcp(None), None, None)
        .unwrap();
    assert_eq!(binary.command, "/usr/local/bin/dlv".to_string());
    let conn = binary.connection.unwrap();
    assert_eq!(conn.host, "127.0.0.1".to_string());
    assert_eq!(conn.port, 34567);
    assert_eq!(conn.timeout, 2000);
    assert_eq!(
        binary.arguments.unwrap()[2],
        "127.0.0.1:34567".to_string()
    );
}

#[test]
fn missing_tool_reports_not_found() {
    let adapter = GoDebugAdapter;
    let delegate = FakeDelegate { which_result: None, free_port: Some(1) };
    let err = adapter
        .get_installed_binary(&delegate, &config_with_tcp(None), None, None)
        .unwrap_err();
    assert_eq!(err, DebugAdapterError::NotFound("dlv".to_string()));
    assert_eq!(err.message(), "dlv not found in path".to_string());
}

#[test]
fn environment_overrides_are_passed_through() {
    let adapter = GoDebugAdapter;
    let delegate = FakeDelegate {
        which_result: Some("/usr/bin/dlv".to_string()),
        free_port: Some(40000),
    };
    let envs = vec![("GOPATH".to_string(), "/go".to_string())];
    let binary = adapter
        .get_binary(&delegate, &config_with_tcp(None), None, Some(envs.clone()))
        .unwrap();
    assert_eq!(binary.envs, Some(envs));
}

#[test]
fn explicit_port_zero_fails_even_with_user_path() {
    let adapter = GoDebugAdapter;
    let config = config_with_tcp(Some(TcpHost {
        host: None,
        port: Some(0),
        timeout: None,
    }));
    let delegate = FakeDelegate { which_result: None, free_port: Some(1) };
    let err = adapter
        .get_installed_binary(&delegate, &config, Some("/custom/dlv".to_string()), None)
        .unwrap_err();
    assert_eq!(
        err,
        DebugAdapterError::TransportNegotiationFailure(
            "port must be in the valid TCP port range".to_string()
        )
    );
}

#[test]
fn descriptor_passes_command_and_transport_through() {
    let binary = dap_adapters::go::go_binary_descriptor(
        "/opt/dlv".to_string(),
        dap_adapters::transport::TcpArguments {
            host: "127.0.0.1".to_string(),
            port: 9229,
            timeout: 2000,
        },
        None,
    );
    assert_eq!(binary.command, "/opt/dlv".to_string());
    assert_eq!(
        binary.arguments.unwrap(),
        vec![
            "dap".to_string(),
            "--listen".to_string(),
            "127.0.0.1:9229".to_string()
        ]
    );
    let conn = binary.connection.unwrap();
    assert_eq!(conn.port, 9229);
    assert_eq!(conn.timeout, 2000);
}

#[test]
fn fetch_latest_version_is_unsupported_and_offline() {
    let adapter = GoDebugAdapter;
    let result = adapter.fetch_latest_adapter_version(&UntouchableDelegate);
    assert_eq!(result, Err(DebugAdapterError::UnsupportedOperation));
    assert_eq!(
        result.unwrap_err().message(),
        "operation not supported by this adapter".to_string()
    );
}
