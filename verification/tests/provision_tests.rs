use base64::Engine;

use iotedged::error::ErrorKind;
use iotedged::provision::{dps_resolve, manual_provision, DpsOutcome, ProvisioningResult};

#[test]
fn manual_provision_reads_all_three_parts() {
    let key = base64::engine::general_purpose::STANDARD.encode([0u8, 1, 2, 254, 255]);
    let conn = format!("HostName=hub.example.com;DeviceId=device-1;SharedAccessKey={}", key);
    let (store, result, root_key) = manual_provision(&conn).unwrap();
    assert_eq!(result.hub_name, "hub.example.com");
    assert_eq!(result.device_id, "device-1");
    assert!(result.status.is_none());
    assert_eq!(root_key, vec![0u8, 1, 2, 254, 255]);
    assert_eq!(store.primary, root_key);
}

#[test]
fn manual_provision_rejects_missing_parts() {
    for conn in [
        "",
        "HostName=hub.example.com;DeviceId=device-1",
        "DeviceId=device-1;SharedAccessKey=QQ==",
        "HostName=hub.example.com;SharedAccessKey=QQ==",
        "blah",
    ] {
        let e = manual_provision(conn).unwrap_err();
        assert_eq!(e.kind(), ErrorKind::InvalidProvisioning);
    }
}

#[test]
fn manual_provision_rejects_bad_key_encoding() {
    let e = manual_provision("HostName=h;DeviceId=d;SharedAccessKey=!!!not-base64!!!")
        .unwrap_err();
    assert_eq!(e.kind(), ErrorKind::InvalidProvisioning);
}

fn result(hub: &str, device: &str) -> ProvisioningResult {
    ProvisioningResult {
        hub_name: hub.to_string(),
        device_id: device.to_string(),
        status: Some("assigned".to_string()),
    }
}

#[test]
fn dps_assignment_wins_and_is_persisted() {
    let fresh = result("hub", "dev");
    let backup = result("old-hub", "old-dev");
    let (got, persist) = dps_resolve(DpsOutcome::Assigned(fresh), Some(backup)).unwrap();
    assert_eq!(got.hub_name, "hub");
    assert_eq!(got.device_id, "dev");
    assert!(persist);
}

#[test]
fn dps_failure_falls_back_to_backup() {
    let backup = result("old-hub", "old-dev");
    let (got, persist) = dps_resolve(DpsOutcome::Failed, Some(backup)).unwrap();
    assert_eq!(got.hub_name, "old-hub");
    assert_eq!(got.device_id, "old-dev");
    assert!(!persist);
}

#[test]
fn dps_failure_without_backup_is_fatal() {
    let e = dps_resolve(DpsOutcome::Failed, None).unwrap_err();
    assert_eq!(e.kind(), ErrorKind::ProvisioningFailed);
}
