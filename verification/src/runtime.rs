//! The edge-agent module spec, rewritten for launch.
//!
//! Before the watchdog starts the agent, its configured spec is rewritten:
//! the composed environment block replaces the configured one, and every
//! local API endpoint that lives on a Unix socket is bind-mounted into the
//! container, host path to identical container path, so the agent can
//! reach the daemon.

use vstd::prelude::*;

verus! {

use vstd::string::StringExecFns;
use crate::error::{Error, ErrorKind};
use crate::settings::{AgentSpec, Settings, Uri, UriView};
use crate::strutil::str_eq;

/// The bind-mount entry one Unix-socket URI earns: its path, host side and
/// container side alike.
pub open spec fn bind_of(u: UriView) -> Seq<char> {
    u.path + ":"@ + u.path
}

/// The bind mounts a list of URIs adds: one per Unix-scheme URI, in order.
pub open spec fn spec_binds(us: Seq<UriView>) -> Seq<Seq<char>>
    decreases us.len(),
{
    if us.len() == 0 {
        Seq::empty()
    } else if us.last().scheme == "unix"@ {
        spec_binds(us.drop_last()).push(bind_of(us.last()))
    } else {
        spec_binds(us.drop_last())
    }
}

/// Appends to `binds` one `<path>:<path>` bind mount for every URI whose
/// scheme is `unix`, in order.
pub fn vol_mount_binds(binds: &mut Vec<String>, uris: &Vec<Uri>)
    ensures
        final(binds)@.map_values(|s: String| s@) == old(binds)@.map_values(|s: String| s@)
            + spec_binds(uris@.map_values(|u: Uri| u@)),
{
    let ghost uv = uris@.map_values(|u: Uri| u@);
    let ghost base = binds@.map_values(|s: String| s@);
    let mut i: usize = 0;
    proof {
        assert(uv.take(0) =~= Seq::<UriView>::empty());
        assert(base + spec_binds(uv.take(0)) =~= base);
    }
    while i < uris.len()
        invariant
            0 <= i <= uris@.len(),
            uv == uris@.map_values(|u: Uri| u@),
            base + spec_binds(uv.take(i as int)) =~= binds@.map_values(|s: String| s@),
        decreases uris@.len() - i,
    {
        let ghost pre = binds@.map_values(|s: String| s@);
        let u = &uris[i];
        proof {
            assert(uv[i as int] == u@);
            assert(uv.take(i as int + 1).drop_last() =~= uv.take(i as int));
            assert(uv.take(i as int + 1).last() == uv[i as int]);
        }
        if str_eq(u.scheme.as_str(), "unix") {
            let mut bind = u.path.clone();
            bind.append(":");
            bind.append(u.path.as_str());
            assert(bind@ == bind_of(uv[i as int]));
            binds.push(bind);
            proof {
                assert(binds@.map_values(|s: String| s@) =~= pre.push(bind_of(uv[i as int])));
                assert(binds@.map_values(|s: String| s@) =~= base + spec_binds(
                    uv.take(i as int + 1),
                ));
            }
        } else {
            proof {
                assert(spec_binds(uv.take(i as int + 1)) == spec_binds(uv.take(i as int)));
            }
        }
        i = i + 1;
    }
    proof {
        assert(uv.take(uris@.len() as int) =~= uv);
    }
}

/// What the watchdog does on one observation of the agent module.
#[derive(Clone, Copy, Debug, PartialEq, Eq, Structural)]
pub enum WatchdogDecision {
    /// The module runs and no shutdown was asked: keep watching.
    Wait,
    /// The module is gone without a shutdown: start it again.
    Restart,
    /// Shutdown was asked: stop the module and complete.
    Stop,
}

/// The watchdog's rule: until the shutdown channel fires the agent is kept
/// running, and an unexpected exit is recovered by a restart — reported as
/// a module crash, never as a fatal error.
pub fn watchdog_step(shutdown_requested: bool, agent_running: bool) -> (r: (
    WatchdogDecision,
    Option<Error>,
))
    ensures
        shutdown_requested ==> r.0 == WatchdogDecision::Stop,
        !shutdown_requested && agent_running ==> r.0 == WatchdogDecision::Wait,
        !shutdown_requested && !agent_running ==> r.0 == WatchdogDecision::Restart,
        r.1 is Some <==> r.0 == WatchdogDecision::Restart,
        r.1 is Some ==> r.1->0.kind == ErrorKind::ModuleCrash,
{
    if shutdown_requested {
        (WatchdogDecision::Stop, None)
    } else if agent_running {
        (WatchdogDecision::Wait, None)
    } else {
        (WatchdogDecision::Restart, Some(Error::new(ErrorKind::ModuleCrash)))
    }
}

/// Builds the spec the watchdog launches: the configured agent spec under
/// the runtime module name, with the composed environment in place of the
/// configured one and the two local API sockets bind-mounted in.
pub fn prepare_agent_spec(settings: &Settings, env: Vec<(String, String)>) -> (r: AgentSpec)
    ensures
        r.name@ == "edgeAgent"@,
        r@.module_type == settings.agent@.module_type,
        r@.image == settings.agent@.image,
        r@.env == crate::strutil::pairs_view(env@),
        r@.binds == settings.agent@.binds + spec_binds(
            seq![
                settings.connect_management_uri@,
                settings.connect_workload_uri@,
            ],
        ),
{
    let mut binds = settings.agent.binds.clone();
    proof {
        assert(binds@.map_values(|s: String| s@) =~= settings.agent@.binds);
    }
    let mut uris: Vec<Uri> = Vec::new();
    uris.push(Uri {
        scheme: settings.connect_management_uri.scheme.clone(),
        path: settings.connect_management_uri.path.clone(),
        text: settings.connect_management_uri.text.clone(),
    });
    uris.push(Uri {
        scheme: settings.connect_workload_uri.scheme.clone(),
        path: settings.connect_workload_uri.path.clone(),
        text: settings.connect_workload_uri.text.clone(),
    });
    proof {
        assert(uris@.map_values(|u: Uri| u@) =~= seq![
            settings.connect_management_uri@,
            settings.connect_workload_uri@,
        ]);
    }
    vol_mount_binds(&mut binds, &uris);
    let r = AgentSpec {
        name: "edgeAgent".to_owned(),
        module_type: settings.agent.module_type.clone(),
        image: settings.agent.image.clone(),
        binds,
        env,
    };
    proof {
        assert(r@.binds =~= settings.agent@.binds + spec_binds(
            seq![settings.connect_management_uri@, settings.connect_workload_uri@],
        ));
    }
    r
}

} // verus!
