//! Provisioning decisions: the manual connection string and the
//! registration-service fallback.
//!
//! Manual provisioning parses a device connection string and decodes its
//! shared access key; registration-service provisioning is driven from
//! outside (the network call lives at the process edge) and this module
//! decides what its outcome and the on-disk backup yield together.

use vstd::prelude::*;

verus! {

use crate::crypto::{base64_decode, base64_decode_of};
use crate::error::{Error, ErrorKind};
use crate::keystore::DerivedKeyStore;
use crate::strutil::{find_kv, find_kv_value, spec_split, split_str};

/// The identity a successful provisioning run establishes.
#[derive(Debug)]
pub struct ProvisioningResult {
    pub hub_name: String,
    pub device_id: String,
    pub status: Option<String>,
}

/// The mathematical form of a provisioning result.
pub struct ProvisioningResultView {
    pub hub_name: Seq<char>,
    pub device_id: Seq<char>,
    pub status: Option<Seq<char>>,
}

impl View for ProvisioningResult {
    type V = ProvisioningResultView;

    open spec fn view(&self) -> ProvisioningResultView {
        ProvisioningResultView {
            hub_name: self.hub_name@,
            device_id: self.device_id@,
            status: match &self.status {
                Some(s) => Some(s@),
                None => None,
            },
        }
    }
}

/// The hub name a connection string carries.
pub open spec fn conn_hub(s: Seq<char>) -> Option<Seq<char>> {
    find_kv(spec_split(s, ';'), "HostName"@, 0)
}

/// The device id a connection string carries.
pub open spec fn conn_device(s: Seq<char>) -> Option<Seq<char>> {
    find_kv(spec_split(s, ';'), "DeviceId"@, 0)
}

/// The base64 shared access key a connection string carries.
pub open spec fn conn_key(s: Seq<char>) -> Option<Seq<char>> {
    find_kv(spec_split(s, ';'), "SharedAccessKey"@, 0)
}

/// Provisions from a manual device connection string
/// (`HostName=…;DeviceId=…;SharedAccessKey=…`): the hub name and device id
/// are read off, and the decoded key becomes the device primary key,
/// handed back both as the root key and wrapped in the derived key store.
/// A string missing any of the three parts, or carrying a key that is not
/// base64, is rejected.
pub fn manual_provision(conn: &str) -> (r: Result<
    (DerivedKeyStore, ProvisioningResult, Vec<u8>),
    Error,
>)
    ensures
        match r {
            Ok(p) => {
                &&& conn_hub(conn@) == Some(p.1.hub_name@)
                &&& conn_device(conn@) == Some(p.1.device_id@)
                &&& p.1.status is None
                &&& conn_key(conn@) is Some
                &&& base64_decode_of(conn_key(conn@)->Some_0) == Some(p.2@)
                &&& p.0.primary@ == p.2@
            },
            Err(e) => {
                &&& e.kind == ErrorKind::InvalidProvisioning
                &&& (conn_hub(conn@) is None || conn_device(conn@) is None || conn_key(conn@)
                    is None || base64_decode_of(conn_key(conn@)->Some_0) is None)
            },
        },
{
    let parts = split_str(conn, ';');
    let hub = find_kv_value(&parts, "HostName");
    let device = find_kv_value(&parts, "DeviceId");
    let key_b64 = find_kv_value(&parts, "SharedAccessKey");
    match (hub, device, key_b64) {
        (Some(hub_name), Some(device_id), Some(key_text)) => {
            match base64_decode(key_text.as_str()) {
                Some(key) => {
                    let result = ProvisioningResult { hub_name, device_id, status: None };
                    let store = DerivedKeyStore::new(key.clone());
                    Ok((store, result, key))
                },
                None => Err(Error::new(ErrorKind::InvalidProvisioning)),
            }
        },
        _ => Err(Error::new(ErrorKind::InvalidProvisioning)),
    }
}

/// What the registration service answered, as the process edge saw it.
pub enum DpsOutcome {
    /// The service assigned this identity.
    Assigned(ProvisioningResult),
    /// The call failed: network trouble or a service rejection.
    Failed,
}

/// Resolves a registration-service run against the on-disk backup: a fresh
/// assignment wins and is to be persisted; on failure a parsed backup
/// stands in; with neither, provisioning has failed.  The boolean says
/// whether the caller must write the result to the backup file.
pub fn dps_resolve(outcome: DpsOutcome, backup: Option<ProvisioningResult>) -> (r: Result<
    (ProvisioningResult, bool),
    Error,
>)
    ensures
        match outcome {
            DpsOutcome::Assigned(res) => r is Ok && r->Ok_0.0 == res && r->Ok_0.1 == true,
            DpsOutcome::Failed => match backup {
                Some(b) => r is Ok && r->Ok_0.0 == b && r->Ok_0.1 == false,
                None => r is Err && r->Err_0.kind == ErrorKind::ProvisioningFailed,
            },
        },
{
    match outcome {
        DpsOutcome::Assigned(res) => Ok((res, true)),
        DpsOutcome::Failed => match backup {
            Some(b) => Ok((b, false)),
            None => Err(Error::new(ErrorKind::ProvisioningFailed)),
        },
    }
}

} // verus!
