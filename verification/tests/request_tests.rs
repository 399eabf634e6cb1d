use dap_adapters::adapter::{
    AttachConfig, DebugAdapterConfig, DebugAdapterName, DebugRequestType, LaunchConfig,
};
use dap_adapters::go::GoDebugAdapter;
use dap_adapters::payload::PayloadValue;
use dap_adapters::registry::{build_adapter, DebugAdapterVariant};
use dap_adapters::errors::DebugAdapterError;

fn attach_config(process_id: u32, stop_on_entry: Option<bool>) -> DebugAdapterConfig {
    DebugAdapterConfig {
        adapter: DebugAdapterName("Delve".to_string()),
        request: DebugRequestType::Attach(AttachConfig { process_id }),
        stop_on_entry,
        tcp_connection: None,
    }
}

fn launch_config(stop_on_entry: Option<bool>) -> DebugAdapterConfig {
    DebugAdapterConfig {
        adapter: DebugAdapterName("Delve".to_string()),
        request: DebugRequestType::Launch(LaunchConfig {
            program: "/bin/app".to_string(),
            cwd: "/home/u".to_string(),
            args: vec!["--flag".to_string()],
        }),
        stop_on_entry,
        tcp_connection: None,
    }
}

#[test]
fn name_is_delve() {
    let adapter = GoDebugAdapter;
    assert_eq!(adapter.name().0, "Delve".to_string());
}

#[test]
fn attach_payload_has_process_id_only() {
    let adapter = GoDebugAdapter;
    let payload = adapter.request_args(&attach_config(4242, None));
    assert_eq!(payload.get("processId"), Some(&PayloadValue::Number(4242)));
    assert!(!payload.contains_key("program"));
    assert!(!payload.contains_key("cwd"));
    assert!(!payload.contains_key("args"));
    assert!(!payload.contains_key("stopOnEntry"));
    assert_eq!(payload.len(), 1);
}

#[test]
fn launch_payload_with_stop_on_entry() {
    let adapter = GoDebugAdapter;
    let payload = adapter.request_args(&launch_config(Some(true)));
    assert_eq!(
        payload.get("program"),
        Some(&PayloadValue::Str("/bin/app".to_string()))
    );
    assert_eq!(
        payload.get("cwd"),
        Some(&PayloadValue::Str("/home/u".to_string()))
    );
    assert_eq!(
        payload.get("args"),
        Some(&PayloadValue::StrList(vec!["--flag".to_string()]))
    );
    assert_eq!(payload.get("stopOnEntry"), Some(&PayloadValue::Bool(true)));
    assert_eq!(payload.len(), 4);
}

#[test]
fn launch_payload_without_stop_on_entry_omits_key() {
    let adapter = GoDebugAdapter;
    let payload = adapter.request_args(&launch_config(None));
    assert!(!payload.contains_key("stopOnEntry"));
    assert!(!payload.contains_key("processId"));
    assert_eq!(payload.len(), 3);
}

#[test]
fn stop_on_entry_false_is_still_emitted() {
    let adapter = GoDebugAdapter;
    let payload = adapter.request_args(&attach_config(7, Some(false)));
    assert_eq!(payload.get("stopOnEntry"), Some(&PayloadValue::Bool(false)));
    assert_eq!(payload.len(), 2);
}

#[test]
fn payload_lookup_of_absent_key_is_none() {
    let adapter = GoDebugAdapter;
    let payload = adapter.request_args(&attach_config(1, None));
    assert_eq!(payload.get("nonexistent"), None);
}

#[test]
fn registry_resolves_delve() {
    let variant = build_adapter(&DebugAdapterName("Delve".to_string())).unwrap();
    assert_eq!(variant.name().0, "Delve".to_string());
    let payload = variant.request_args(&attach_config(4242, None));
    assert_eq!(payload.get("processId"), Some(&PayloadValue::Number(4242)));
}

#[test]
fn registry_rejects_unknown_name() {
    let result = build_adapter(&DebugAdapterName("NoSuchBackend".to_string()));
    assert_eq!(result, Err(DebugAdapterError::UnsupportedOperation));
}

#[test]
fn variant_is_an_enum_over_backends() {
    let variant = build_adapter(&DebugAdapterName("Delve".to_string())).unwrap();
    assert!(matches!(variant, DebugAdapterVariant::Go(_)));
}
