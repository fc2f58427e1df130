use iotedged::env::build_env;
use iotedged::settings::{AgentSpec, Provisioning, Settings, Uri};
use iotedged::strutil::lookup_pair;

fn uri(text: &str, scheme: &str, path: &str) -> Uri {
    Uri { scheme: scheme.to_string(), path: path.to_string(), text: text.to_string() }
}

fn sample_settings() -> Settings {
    Settings {
        provisioning: Provisioning::Manual {
            device_connection_string: "HostName=h;DeviceId=d;SharedAccessKey=QQ==".to_string(),
        },
        agent: AgentSpec {
            name: "edgeAgent".to_string(),
            module_type: "docker".to_string(),
            image: "img".to_string(),
            binds: vec![],
            env: vec![],
        },
        hostname: "GoOd-Host".to_string(),
        connect_management_uri: uri("unix:///m.sock", "unix", "/m.sock"),
        connect_workload_uri: uri("unix:///w.sock", "unix", "/w.sock"),
        listen_management_uri: uri("unix:///m.sock", "unix", "/m.sock"),
        listen_workload_uri: uri("unix:///w.sock", "unix", "/w.sock"),
        homedir: "/var/lib/iotedge".to_string(),
        moby_uri: uri("unix:///var/run/docker.sock", "unix", "/var/run/docker.sock"),
        moby_network: String::new(),
    }
}

fn get(env: &Vec<(String, String)>, key: &str) -> Option<String> {
    lookup_pair(env, key)
}

#[test]
fn injected_keys_override_user_entries() {
    let user = vec![
        ("IOTEDGE_IOTHUBHOSTNAME".to_string(), "attacker".to_string()),
        ("EXTRA".to_string(), "1".to_string()),
    ];
    let env = build_env(&user, "good", "d", &sample_settings(), "net");
    assert_eq!(get(&env, "IOTEDGE_IOTHUBHOSTNAME").unwrap(), "good");
    assert_eq!(get(&env, "EXTRA").unwrap(), "1");
}

#[test]
fn every_injected_key_wins_over_a_spoofed_entry() {
    let keys = [
        "IOTEDGE_IOTHUBHOSTNAME",
        "EDGEDEVICEHOSTNAME",
        "IOTEDGE_DEVICEID",
        "IOTEDGE_MODULEID",
        "IOTEDGE_WORKLOADURI",
        "IOTEDGE_MANAGEMENTURI",
        "IOTEDGE_AUTHSCHEME",
        "Mode",
        "NetworkId",
        "IOTEDGE_APIVERSION",
    ];
    let user: Vec<(String, String)> =
        keys.iter().map(|k| (k.to_string(), "x".to_string())).collect();
    let env = build_env(&user, "hub.example", "dev-1", &sample_settings(), "azure-iot-edge");
    for k in keys {
        assert_ne!(get(&env, k).unwrap(), "x", "user entry for {} leaked through", k);
    }
}

#[test]
fn injected_values_are_the_daemons() {
    let env = build_env(&vec![], "hub.example", "dev-1", &sample_settings(), "net-1");
    assert_eq!(get(&env, "IOTEDGE_IOTHUBHOSTNAME").unwrap(), "hub.example");
    assert_eq!(get(&env, "EDGEDEVICEHOSTNAME").unwrap(), "good-host");
    assert_eq!(get(&env, "IOTEDGE_DEVICEID").unwrap(), "dev-1");
    assert_eq!(get(&env, "IOTEDGE_MODULEID").unwrap(), "$edgeAgent");
    assert_eq!(get(&env, "IOTEDGE_WORKLOADURI").unwrap(), "unix:///w.sock");
    assert_eq!(get(&env, "IOTEDGE_MANAGEMENTURI").unwrap(), "unix:///m.sock");
    assert_eq!(get(&env, "IOTEDGE_AUTHSCHEME").unwrap(), "sasToken");
    assert_eq!(get(&env, "Mode").unwrap(), "iotedged");
    assert_eq!(get(&env, "NetworkId").unwrap(), "net-1");
    assert_eq!(get(&env, "IOTEDGE_APIVERSION").unwrap(), "2018-12-30");
}

#[test]
fn user_entries_pass_through_unchanged() {
    let user = vec![
        ("RuntimeLogLevel".to_string(), "debug".to_string()),
        ("A".to_string(), "first".to_string()),
        ("A".to_string(), "second".to_string()),
    ];
    let env = build_env(&user, "hub", "d", &sample_settings(), "net");
    assert_eq!(get(&env, "RuntimeLogLevel").unwrap(), "debug");
    // The first user occurrence decides, as in the user's own table.
    assert_eq!(get(&env, "A").unwrap(), "first");
    assert!(get(&env, "ABSENT").is_none());
}
