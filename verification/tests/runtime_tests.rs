use iotedged::error::ErrorKind;
use iotedged::runtime::{prepare_agent_spec, vol_mount_binds, watchdog_step, WatchdogDecision};
use iotedged::settings::{AgentSpec, Provisioning, Settings, Uri};

fn uri(text: &str, scheme: &str, path: &str) -> Uri {
    Uri { scheme: scheme.to_string(), path: path.to_string(), text: text.to_string() }
}

fn sample_settings() -> Settings {
    Settings {
        provisioning: Provisioning::Manual {
            device_connection_string: "HostName=h;DeviceId=d;SharedAccessKey=QQ==".to_string(),
        },
        agent: AgentSpec {
            name: "agent-as-configured".to_string(),
            module_type: "docker".to_string(),
            image: "microsoft/azureiotedge-agent".to_string(),
            binds: vec!["/data:/data".to_string()],
            env: vec![("IGNORED".to_string(), "by-rewrite".to_string())],
        },
        hostname: "host".to_string(),
        connect_management_uri: uri(
            "unix:///var/run/iotedge/mgmt.sock",
            "unix",
            "/var/run/iotedge/mgmt.sock",
        ),
        connect_workload_uri: uri("http://localhost:8081", "http", "/"),
        listen_management_uri: uri("unix:///m.sock", "unix", "/m.sock"),
        listen_workload_uri: uri("unix:///w.sock", "unix", "/w.sock"),
        homedir: "/var/lib/iotedge".to_string(),
        moby_uri: uri("unix:///var/run/docker.sock", "unix", "/var/run/docker.sock"),
        moby_network: String::new(),
    }
}

#[test]
fn only_unix_uris_are_mounted() {
    let mut binds = vec!["/existing:/existing".to_string()];
    let uris = vec![
        uri("unix:///var/run/iotedge/mgmt.sock", "unix", "/var/run/iotedge/mgmt.sock"),
        uri("http://localhost:8081", "http", "/"),
        uri("unix:///var/run/iotedge/workload.sock", "unix", "/var/run/iotedge/workload.sock"),
    ];
    vol_mount_binds(&mut binds, &uris);
    assert_eq!(
        binds,
        vec![
            "/existing:/existing".to_string(),
            "/var/run/iotedge/mgmt.sock:/var/run/iotedge/mgmt.sock".to_string(),
            "/var/run/iotedge/workload.sock:/var/run/iotedge/workload.sock".to_string(),
        ]
    );
}

#[test]
fn watchdog_restarts_a_crashed_agent_until_shutdown() {
    let (d, e) = watchdog_step(false, true);
    assert_eq!(d, WatchdogDecision::Wait);
    assert!(e.is_none());

    let (d, e) = watchdog_step(false, false);
    assert_eq!(d, WatchdogDecision::Restart);
    assert_eq!(e.unwrap().kind(), ErrorKind::ModuleCrash);

    let (d, e) = watchdog_step(true, false);
    assert_eq!(d, WatchdogDecision::Stop);
    assert!(e.is_none());
    let (d, _) = watchdog_step(true, true);
    assert_eq!(d, WatchdogDecision::Stop);
}

#[test]
fn agent_spec_is_rewritten_for_launch() {
    let settings = sample_settings();
    let env = vec![("IOTEDGE_DEVICEID".to_string(), "d".to_string())];
    let spec = prepare_agent_spec(&settings, env.clone());
    assert_eq!(spec.name, "edgeAgent");
    assert_eq!(spec.module_type, "docker");
    assert_eq!(spec.image, "microsoft/azureiotedge-agent");
    assert_eq!(spec.env, env);
    // The configured binds stay; the unix management socket is mounted,
    // the TCP workload endpoint is not.
    assert_eq!(
        spec.binds,
        vec![
            "/data:/data".to_string(),
            "/var/run/iotedge/mgmt.sock:/var/run/iotedge/mgmt.sock".to_string(),
        ]
    );
}
