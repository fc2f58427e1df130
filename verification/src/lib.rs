//! Orchestration kernel of an IoT edge device daemon.
//!
//! The crate holds the logic that the daemon's boot pipeline and its two
//! local HTTP endpoints rest on: the supported API versions, the
//! version-gated request router, the settings fingerprint and its cache
//! guard, the provisioning decisions (manual connection strings and the
//! registration-service fallback), the environment block injected into the
//! edge-agent container, the rewrite of the agent's module spec, and the
//! shutdown fan-out that joins the supervised arms.  Everything here is
//! verified; the process edges (sockets, files, the container runtime, the
//! hardware key store) live outside and hand these functions plain values.

pub mod error;
pub mod strutil;
pub mod version;
pub mod crypto;
pub mod router;
pub mod settings;
pub mod cache;
pub mod keystore;
pub mod provision;
pub mod env;
pub mod runtime;
pub mod orchestrator;
