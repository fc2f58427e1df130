//! The environment block injected into the edge-agent container.
//!
//! The daemon composes the agent's environment from the user-supplied
//! entries and a fixed table of injected keys.  The injected keys always
//! win a collision — a user entry cannot spoof the hub name, the device
//! id or any other daemon-controlled value — and the API version key is
//! the daemon's unconditionally.

use vstd::prelude::*;

verus! {

use crate::settings::Settings;
use crate::strutil::{
    lemma_lookup_absent, lemma_lookup_concat, lemma_lookup_first, lookup_pairs, lower_of,
    lowercase, pairs_view, str_eq,
};
use crate::version::{version_str, Version, CURRENT};

/// Whether a key belongs to the injected table (the API version key
/// included).
pub open spec fn injected_key(k: Seq<char>) -> bool {
    ||| k == "IOTEDGE_IOTHUBHOSTNAME"@
    ||| k == "EDGEDEVICEHOSTNAME"@
    ||| k == "IOTEDGE_DEVICEID"@
    ||| k == "IOTEDGE_MODULEID"@
    ||| k == "IOTEDGE_WORKLOADURI"@
    ||| k == "IOTEDGE_MANAGEMENTURI"@
    ||| k == "IOTEDGE_AUTHSCHEME"@
    ||| k == "Mode"@
    ||| k == "NetworkId"@
    ||| k == "IOTEDGE_APIVERSION"@
}

/// Tests a key against the injected table.
fn is_injected_key(k: &str) -> (r: bool)
    ensures
        r == injected_key(k@),
{
    str_eq(k, "IOTEDGE_IOTHUBHOSTNAME") || str_eq(k, "EDGEDEVICEHOSTNAME") || str_eq(
        k,
        "IOTEDGE_DEVICEID",
    ) || str_eq(k, "IOTEDGE_MODULEID") || str_eq(k, "IOTEDGE_WORKLOADURI") || str_eq(
        k,
        "IOTEDGE_MANAGEMENTURI",
    ) || str_eq(k, "IOTEDGE_AUTHSCHEME") || str_eq(k, "Mode") || str_eq(k, "NetworkId") || str_eq(
        k,
        "IOTEDGE_APIVERSION",
    )
}

/// Composes the agent environment.  Injected keys carry the daemon's
/// values whatever the user entries say; every other key reads exactly as
/// it does in the user entries.
pub fn build_env(
    user_env: &Vec<(String, String)>,
    hub_hostname: &str,
    device_id: &str,
    settings: &Settings,
    network_id: &str,
) -> (r: Vec<(String, String)>)
    ensures
        ({
            let e = pairs_view(r@);
            &&& lookup_pairs(e, "IOTEDGE_IOTHUBHOSTNAME"@) == Some(hub_hostname@)
            &&& lookup_pairs(e, "EDGEDEVICEHOSTNAME"@) == Some(lower_of(settings.hostname@))
            &&& lookup_pairs(e, "IOTEDGE_DEVICEID"@) == Some(device_id@)
            &&& lookup_pairs(e, "IOTEDGE_MODULEID"@) == Some("$edgeAgent"@)
            &&& lookup_pairs(e, "IOTEDGE_WORKLOADURI"@) == Some(settings.connect_workload_uri.text@)
            &&& lookup_pairs(e, "IOTEDGE_MANAGEMENTURI"@) == Some(
                settings.connect_management_uri.text@,
            )
            &&& lookup_pairs(e, "IOTEDGE_AUTHSCHEME"@) == Some("sasToken"@)
            &&& lookup_pairs(e, "Mode"@) == Some("iotedged"@)
            &&& lookup_pairs(e, "NetworkId"@) == Some(network_id@)
            &&& lookup_pairs(e, "IOTEDGE_APIVERSION"@) == Some(version_str(CURRENT))
            &&& forall|k: Seq<char>|
                !injected_key(k) ==> lookup_pairs(e, k) == lookup_pairs(pairs_view(user_env@), k)
        }),
{
    let ghost u = pairs_view(user_env@);
    let mut out: Vec<(String, String)> = Vec::new();
    out.push(("IOTEDGE_IOTHUBHOSTNAME".to_owned(), hub_hostname.to_owned()));
    out.push(("EDGEDEVICEHOSTNAME".to_owned(), lowercase(settings.hostname.as_str())));
    out.push(("IOTEDGE_DEVICEID".to_owned(), device_id.to_owned()));
    out.push(("IOTEDGE_MODULEID".to_owned(), "$edgeAgent".to_owned()));
    out.push(("IOTEDGE_WORKLOADURI".to_owned(), settings.connect_workload_uri.text.clone()));
    out.push(("IOTEDGE_MANAGEMENTURI".to_owned(), settings.connect_management_uri.text.clone()));
    out.push(("IOTEDGE_AUTHSCHEME".to_owned(), "sasToken".to_owned()));
    out.push(("Mode".to_owned(), "iotedged".to_owned()));
    out.push(("NetworkId".to_owned(), network_id.to_owned()));
    let current = CURRENT;
    out.push(("IOTEDGE_APIVERSION".to_owned(), current.render()));
    let ghost inj = pairs_view(out@);
    proof {
        assert(inj.len() == 10);
        assert(inj[0] == ("IOTEDGE_IOTHUBHOSTNAME"@, hub_hostname@));
        assert(inj[1] == ("EDGEDEVICEHOSTNAME"@, lower_of(settings.hostname@)));
        assert(inj[2] == ("IOTEDGE_DEVICEID"@, device_id@));
        assert(inj[3] == ("IOTEDGE_MODULEID"@, "$edgeAgent"@));
        assert(inj[4] == ("IOTEDGE_WORKLOADURI"@, settings.connect_workload_uri.text@));
        assert(inj[5] == ("IOTEDGE_MANAGEMENTURI"@, settings.connect_management_uri.text@));
        assert(inj[6] == ("IOTEDGE_AUTHSCHEME"@, "sasToken"@));
        assert(inj[7] == ("Mode"@, "iotedged"@));
        assert(inj[8] == ("NetworkId"@, network_id@));
        assert(inj[9] == ("IOTEDGE_APIVERSION"@, version_str(CURRENT)));
        assert(forall|j: int| 0 <= j < inj.len() ==> injected_key((#[trigger] inj[j]).0));
    }

    // Keep the user entries whose keys the table does not own.
    let mut kept: Vec<(String, String)> = Vec::new();
    let mut i: usize = 0;
    proof {
        assert(pairs_view(kept@) + u.skip(0) =~= u);
    }
    while i < user_env.len()
        invariant
            0 <= i <= user_env@.len(),
            u == pairs_view(user_env@),
            forall|j: int|
                0 <= j < kept@.len() ==> !injected_key((#[trigger] pairs_view(kept@)[j]).0),
            forall|k: Seq<char>|
                !injected_key(k) ==> #[trigger] lookup_pairs(pairs_view(kept@) + u.skip(i as int), k)
                    == lookup_pairs(u, k),
        decreases user_env@.len() - i,
    {
        let ghost kv = pairs_view(kept@);
        proof {
            assert(u.skip(i as int)[0] == u[i as int]);
            assert(u.skip(i as int).drop_first() =~= u.skip(i as int + 1));
        }
        let e = &user_env[i];
        proof {
            assert(u[i as int] == (e.0@, e.1@));
        }
        if is_injected_key(e.0.as_str()) {
            proof {
                assert forall|k: Seq<char>| !injected_key(k) implies #[trigger] lookup_pairs(
                    pairs_view(kept@) + u.skip(i as int + 1),
                    k,
                ) == lookup_pairs(u, k) by {
                    lemma_lookup_concat(kv, u.skip(i as int), k);
                    lemma_lookup_concat(kv, u.skip(i as int + 1), k);
                    assert(u[i as int].0 != k);
                    assert(lookup_pairs(u.skip(i as int), k) == lookup_pairs(
                        u.skip(i as int + 1),
                        k,
                    ));
                }
            }
        } else {
            kept.push((e.0.clone(), e.1.clone()));
            proof {
                assert(pairs_view(kept@) =~= kv.push((e.0@, e.1@)));
                assert(pairs_view(kept@) + u.skip(i as int + 1) =~= kv + u.skip(i as int));
                assert forall|j: int|
                    0 <= j < kept@.len() implies !injected_key(
                    (#[trigger] pairs_view(kept@)[j]).0,
                ) by {
                    if j < kept@.len() - 1 {
                        assert(pairs_view(kept@)[j] == kv[j]);
                    }
                }
            }
        }
        i = i + 1;
    }
    proof {
        assert(u.skip(user_env@.len() as int) =~= Seq::<(Seq<char>, Seq<char>)>::empty());
        assert(pairs_view(kept@) + u.skip(user_env@.len() as int) =~= pairs_view(kept@));
    }

    let ghost kv = pairs_view(kept@);
    let mut tail = kept;
    out.append(&mut tail);
    proof {
        let e = pairs_view(out@);
        assert(e =~= inj + kv);
        reveal_strlit("IOTEDGE_IOTHUBHOSTNAME");
        reveal_strlit("EDGEDEVICEHOSTNAME");
        reveal_strlit("IOTEDGE_DEVICEID");
        reveal_strlit("IOTEDGE_MODULEID");
        reveal_strlit("IOTEDGE_WORKLOADURI");
        reveal_strlit("IOTEDGE_MANAGEMENTURI");
        reveal_strlit("IOTEDGE_AUTHSCHEME");
        reveal_strlit("Mode");
        reveal_strlit("NetworkId");
        reveal_strlit("IOTEDGE_APIVERSION");
        assert(forall|j: int| 0 <= j < 10 ==> #[trigger] e[j] == inj[j]);
        assert("IOTEDGE_IOTHUBHOSTNAME"@.len() == 22);
        assert("EDGEDEVICEHOSTNAME"@.len() == 18);
        assert("IOTEDGE_DEVICEID"@.len() == 16);
        assert("IOTEDGE_MODULEID"@.len() == 16);
        assert("IOTEDGE_WORKLOADURI"@.len() == 19);
        assert("IOTEDGE_MANAGEMENTURI"@.len() == 21);
        assert("IOTEDGE_AUTHSCHEME"@.len() == 18);
        assert("Mode"@.len() == 4);
        assert("NetworkId"@.len() == 9);
        assert("IOTEDGE_APIVERSION"@.len() == 18);
        assert("IOTEDGE_DEVICEID"@[8] != "IOTEDGE_MODULEID"@[8]);
        assert("EDGEDEVICEHOSTNAME"@[0] != "IOTEDGE_AUTHSCHEME"@[0]);
        assert("EDGEDEVICEHOSTNAME"@[0] != "IOTEDGE_APIVERSION"@[0]);
        assert("IOTEDGE_AUTHSCHEME"@[9] != "IOTEDGE_APIVERSION"@[9]);
        lemma_lookup_first(e, 0, "IOTEDGE_IOTHUBHOSTNAME"@);
        lemma_lookup_first(e, 1, "EDGEDEVICEHOSTNAME"@);
        lemma_lookup_first(e, 2, "IOTEDGE_DEVICEID"@);
        lemma_lookup_first(e, 3, "IOTEDGE_MODULEID"@);
        lemma_lookup_first(e, 4, "IOTEDGE_WORKLOADURI"@);
        lemma_lookup_first(e, 5, "IOTEDGE_MANAGEMENTURI"@);
        lemma_lookup_first(e, 6, "IOTEDGE_AUTHSCHEME"@);
        lemma_lookup_first(e, 7, "Mode"@);
        lemma_lookup_first(e, 8, "NetworkId"@);
        lemma_lookup_first(e, 9, "IOTEDGE_APIVERSION"@);
        assert forall|k: Seq<char>| !injected_key(k) implies #[trigger] lookup_pairs(e, k)
            == lookup_pairs(u, k) by {
            assert(forall|j: int| 0 <= j < inj.len() ==> (#[trigger] inj[j]).0 != k);
            lemma_lookup_absent(inj, k);
            lemma_lookup_concat(inj, kv, k);
        }
    }
    out
}

} // verus!
