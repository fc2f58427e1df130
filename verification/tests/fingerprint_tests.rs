use base64::Engine;
use sha2::Digest;

use iotedged::settings::{AgentSpec, Provisioning, Settings, Uri};

fn uri(text: &str, scheme: &str, path: &str) -> Uri {
    Uri { scheme: scheme.to_string(), path: path.to_string(), text: text.to_string() }
}

fn sample_settings() -> Settings {
    Settings {
        provisioning: Provisioning::Manual {
            device_connection_string: "HostName=h;DeviceId=d;SharedAccessKey=QQ==".to_string(),
        },
        agent: AgentSpec {
            name: "edgeAgent".to_string(),
            module_type: "docker".to_string(),
            image: "microsoft/test-image".to_string(),
            binds: vec![],
            env: vec![("RuntimeLogLevel".to_string(), "debug".to_string())],
        },
        hostname: "Blah-Host".to_string(),
        connect_management_uri: uri(
            "unix:///var/run/iotedge/mgmt.sock",
            "unix",
            "/var/run/iotedge/mgmt.sock",
        ),
        connect_workload_uri: uri(
            "unix:///var/run/iotedge/workload.sock",
            "unix",
            "/var/run/iotedge/workload.sock",
        ),
        listen_management_uri: uri(
            "unix:///var/run/iotedge/mgmt.sock",
            "unix",
            "/var/run/iotedge/mgmt.sock",
        ),
        listen_workload_uri: uri(
            "unix:///var/run/iotedge/workload.sock",
            "unix",
            "/var/run/iotedge/workload.sock",
        ),
        homedir: "/var/lib/iotedge".to_string(),
        moby_uri: uri("unix:///var/run/docker.sock", "unix", "/var/run/docker.sock"),
        moby_network: String::new(),
    }
}

const EXPECTED_JSON: &str = "{\"provisioning\":{\"source\":\"manual\",\"device_connection_string\":\"HostName=h;DeviceId=d;SharedAccessKey=QQ==\"},\"agent\":{\"name\":\"edgeAgent\",\"type\":\"docker\",\"image\":\"microsoft/test-image\",\"binds\":[],\"env\":{\"RuntimeLogLevel\":\"debug\"}},\"hostname\":\"Blah-Host\",\"connect\":{\"management_uri\":\"unix:///var/run/iotedge/mgmt.sock\",\"workload_uri\":\"unix:///var/run/iotedge/workload.sock\"},\"listen\":{\"management_uri\":\"unix:///var/run/iotedge/mgmt.sock\",\"workload_uri\":\"unix:///var/run/iotedge/workload.sock\"},\"homedir\":\"/var/lib/iotedge\",\"moby_runtime\":{\"uri\":\"unix:///var/run/docker.sock\",\"network\":\"\"}}";

#[test]
fn canonical_json_is_exact() {
    let s = sample_settings();
    let json = s.canonical_json_bytes();
    assert_eq!(String::from_utf8(json).unwrap(), EXPECTED_JSON);
}

#[test]
fn canonical_json_escapes_quotes_and_backslashes() {
    let mut s = sample_settings();
    s.hostname = "a\"b\\c".to_string();
    let json = String::from_utf8(s.canonical_json_bytes()).unwrap();
    assert!(json.contains("\"hostname\":\"a\\\"b\\\\c\""));
}

#[test]
fn fingerprint_is_base64_of_sha256_of_canonical_json() {
    let s = sample_settings();
    let digest = sha2::Sha256::digest(EXPECTED_JSON.as_bytes());
    let expected = base64::engine::general_purpose::STANDARD.encode(digest.as_slice());
    assert_eq!(s.fingerprint(), expected);
}

#[test]
fn fingerprint_is_stable() {
    let a = sample_settings();
    let b = sample_settings();
    assert_eq!(a.fingerprint(), b.fingerprint());
}

#[test]
fn fingerprint_separates_different_settings() {
    let a = sample_settings();
    let mut changed = sample_settings();
    changed.agent.image = "microsoft/other-image".to_string();
    assert_ne!(a.fingerprint(), changed.fingerprint());
}

#[test]
fn default_network_name_applies_when_unset() {
    let s = sample_settings();
    assert_eq!(s.effective_network(), "azure-iot-edge");
    let mut named = sample_settings();
    named.moby_network = "my-net".to_string();
    assert_eq!(named.effective_network(), "my-net");
}
