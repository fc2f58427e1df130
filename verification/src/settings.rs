//! The effective configuration and its fingerprint.
//!
//! Settings are read once at boot and are read-only afterwards.  Their
//! fingerprint — the base64 form of the SHA-256 digest of a canonical JSON
//! rendering — is what the cache guard compares across boots, so the
//! rendering here is fixed: object keys in declaration order, strings with
//! quote and backslash escaped, no whitespace.

use vstd::prelude::*;

verus! {

use vstd::string::StrSliceExecFns;
use vstd::string::StringSliceAdditionalSpecFns;
use crate::crypto::{base64_encode, base64_of, sha256, sha256_of};
use crate::strutil::pairs_view;

/// A local endpoint URI, reduced to what the core reads of it: its scheme,
/// its path, and its full text.
pub struct Uri {
    pub scheme: String,
    pub path: String,
    pub text: String,
}

/// The mathematical form of a URI.
pub struct UriView {
    pub scheme: Seq<char>,
    pub path: Seq<char>,
    pub text: Seq<char>,
}

impl View for Uri {
    type V = UriView;

    open spec fn view(&self) -> UriView {
        UriView { scheme: self.scheme@, path: self.path@, text: self.text@ }
    }
}

/// How a device identity is obtained.
pub enum Provisioning {
    /// A connection string carried in the settings.
    Manual { device_connection_string: String },
    /// A registration service reached through a global endpoint.
    Dps { global_endpoint: String, scope_id: String, registration_id: String },
}

/// The mathematical form of the provisioning choice.
pub enum ProvisioningView {
    Manual { device_connection_string: Seq<char> },
    Dps { global_endpoint: Seq<char>, scope_id: Seq<char>, registration_id: Seq<char> },
}

impl View for Provisioning {
    type V = ProvisioningView;

    open spec fn view(&self) -> ProvisioningView {
        match self {
            Provisioning::Manual { device_connection_string } => ProvisioningView::Manual {
                device_connection_string: device_connection_string@,
            },
            Provisioning::Dps { global_endpoint, scope_id, registration_id } => ProvisioningView::Dps {
                global_endpoint: global_endpoint@,
                scope_id: scope_id@,
                registration_id: registration_id@,
            },
        }
    }
}

/// The edge agent's module spec as configured: name, module type, container
/// image, bind mounts, and the user part of its environment.
pub struct AgentSpec {
    pub name: String,
    pub module_type: String,
    pub image: String,
    pub binds: Vec<String>,
    pub env: Vec<(String, String)>,
}

/// The mathematical form of the agent spec.
pub struct AgentSpecView {
    pub name: Seq<char>,
    pub module_type: Seq<char>,
    pub image: Seq<char>,
    pub binds: Seq<Seq<char>>,
    pub env: Seq<(Seq<char>, Seq<char>)>,
}

impl View for AgentSpec {
    type V = AgentSpecView;

    open spec fn view(&self) -> AgentSpecView {
        AgentSpecView {
            name: self.name@,
            module_type: self.module_type@,
            image: self.image@,
            binds: self.binds@.map_values(|s: String| s@),
            env: pairs_view(self.env@),
        }
    }
}

/// The configuration tree the boot pipeline reads.
pub struct Settings {
    pub provisioning: Provisioning,
    pub agent: AgentSpec,
    pub hostname: String,
    pub connect_management_uri: Uri,
    pub connect_workload_uri: Uri,
    pub listen_management_uri: Uri,
    pub listen_workload_uri: Uri,
    pub homedir: String,
    pub moby_uri: Uri,
    pub moby_network: String,
}

/// The mathematical form of the settings.
pub struct SettingsView {
    pub provisioning: ProvisioningView,
    pub agent: AgentSpecView,
    pub hostname: Seq<char>,
    pub connect_management_uri: UriView,
    pub connect_workload_uri: UriView,
    pub listen_management_uri: UriView,
    pub listen_workload_uri: UriView,
    pub homedir: Seq<char>,
    pub moby_uri: UriView,
    pub moby_network: Seq<char>,
}

impl View for Settings {
    type V = SettingsView;

    open spec fn view(&self) -> SettingsView {
        SettingsView {
            provisioning: self.provisioning@,
            agent: self.agent@,
            hostname: self.hostname@,
            connect_management_uri: self.connect_management_uri@,
            connect_workload_uri: self.connect_workload_uri@,
            listen_management_uri: self.listen_management_uri@,
            listen_workload_uri: self.listen_workload_uri@,
            homedir: self.homedir@,
            moby_uri: self.moby_uri@,
            moby_network: self.moby_network@,
        }
    }
}

/// How one byte is written inside a JSON string: quote and backslash get a
/// backslash prefix, everything else stands as it is.
pub open spec fn escape_byte(b: u8) -> Seq<u8> {
    if b == 34 || b == 92 {
        seq![92u8, b]
    } else {
        seq![b]
    }
}

/// A byte sequence written inside a JSON string.
pub open spec fn escape_bytes(s: Seq<u8>) -> Seq<u8>
    decreases s.len(),
{
    if s.len() == 0 {
        Seq::empty()
    } else {
        escape_bytes(s.drop_last()) + escape_byte(s.last())
    }
}

/// A JSON string: quoted, with its text escaped.
pub open spec fn json_str(s: Seq<char>) -> Seq<u8> {
    seq![34u8] + escape_bytes(vstd::utf8::encode_utf8(s)) + seq![34u8]
}

/// One `"key":"value"` member of a JSON object.
pub open spec fn json_member(e: (Seq<char>, Seq<char>)) -> Seq<u8> {
    json_str(e.0) + seq![58u8] + json_str(e.1)
}

/// Comma-separated members, in entry order.
pub open spec fn json_members(entries: Seq<(Seq<char>, Seq<char>)>) -> Seq<u8>
    decreases entries.len(),
{
    if entries.len() == 0 {
        Seq::empty()
    } else if entries.len() == 1 {
        json_member(entries[0])
    } else {
        json_members(entries.drop_last()) + seq![44u8] + json_member(entries.last())
    }
}

/// A JSON object of string members, in entry order.
pub open spec fn json_object(entries: Seq<(Seq<char>, Seq<char>)>) -> Seq<u8> {
    seq![123u8] + json_members(entries) + seq![125u8]
}

/// Comma-separated JSON strings, in order.
pub open spec fn json_strings(items: Seq<Seq<char>>) -> Seq<u8>
    decreases items.len(),
{
    if items.len() == 0 {
        Seq::empty()
    } else if items.len() == 1 {
        json_str(items[0])
    } else {
        json_strings(items.drop_last()) + seq![44u8] + json_str(items.last())
    }
}

/// The canonical JSON of the provisioning choice.
pub open spec fn json_provisioning(p: ProvisioningView) -> Seq<u8> {
    match p {
        ProvisioningView::Manual { device_connection_string } => "{\"source\":\"manual\",\"device_connection_string\":".spec_bytes()
            + json_str(device_connection_string) + "}".spec_bytes(),
        ProvisioningView::Dps { global_endpoint, scope_id, registration_id } => "{\"source\":\"dps\",\"global_endpoint\":".spec_bytes()
            + json_str(global_endpoint) + ",\"scope_id\":".spec_bytes() + json_str(scope_id)
            + ",\"registration_id\":".spec_bytes() + json_str(registration_id) + "}".spec_bytes(),
    }
}

/// The canonical JSON of the agent spec.
pub open spec fn json_agent(a: AgentSpecView) -> Seq<u8> {
    "{\"name\":".spec_bytes() + json_str(a.name) + ",\"type\":".spec_bytes() + json_str(
        a.module_type,
    ) + ",\"image\":".spec_bytes() + json_str(a.image) + ",\"binds\":[".spec_bytes()
        + json_strings(a.binds) + "],\"env\":".spec_bytes() + json_object(a.env) + "}".spec_bytes()
}

/// The canonical JSON members for the hostname and the two endpoint pairs.
pub open spec fn json_endpoints(s: SettingsView) -> Seq<u8> {
    ",\"hostname\":".spec_bytes() + json_str(s.hostname)
        + ",\"connect\":{\"management_uri\":".spec_bytes() + json_str(s.connect_management_uri.text)
        + ",\"workload_uri\":".spec_bytes() + json_str(s.connect_workload_uri.text)
        + "},\"listen\":{\"management_uri\":".spec_bytes() + json_str(s.listen_management_uri.text)
        + ",\"workload_uri\":".spec_bytes() + json_str(s.listen_workload_uri.text) + "}".spec_bytes()
}

/// The canonical JSON members for the home directory and the runtime.
pub open spec fn json_trailer(s: SettingsView) -> Seq<u8> {
    ",\"homedir\":".spec_bytes() + json_str(s.homedir) + ",\"moby_runtime\":{\"uri\":".spec_bytes()
        + json_str(s.moby_uri.text) + ",\"network\":".spec_bytes() + json_str(s.moby_network)
        + "}}".spec_bytes()
}

/// The canonical JSON of the whole settings tree: keys in declaration
/// order, no whitespace.
pub open spec fn canonical_json(s: SettingsView) -> Seq<u8> {
    "{\"provisioning\":".spec_bytes() + json_provisioning(s.provisioning) + ",\"agent\":".spec_bytes()
        + json_agent(s.agent) + json_endpoints(s) + json_trailer(s)
}

/// The settings fingerprint: base64 of the SHA-256 digest of the canonical
/// JSON rendering.
pub open spec fn spec_fingerprint(s: SettingsView) -> Seq<char> {
    base64_of(sha256_of(canonical_json(s)))
}

/// Appends a literal piece of JSON punctuation.
fn append_lit(out: &mut Vec<u8>, s: &str)
    ensures
        final(out)@ == old(out)@ + s.spec_bytes(),
{
    let mut b = s.as_bytes_vec();
    out.append(&mut b);
}

/// Appends the escaped bytes of a string.
fn append_escaped(out: &mut Vec<u8>, s: &str)
    ensures
        final(out)@ == old(out)@ + escape_bytes(s.spec_bytes()),
{
    let bytes = s.as_bytes_vec();
    let mut i: usize = 0;
    proof {
        assert(bytes@.take(0) =~= Seq::<u8>::empty());
        assert(old(out)@ + escape_bytes(bytes@.take(0)) =~= old(out)@);
    }
    while i < bytes.len()
        invariant
            0 <= i <= bytes@.len(),
            bytes@ == s.spec_bytes(),
            out@ == old(out)@ + escape_bytes(bytes@.take(i as int)),
        decreases bytes@.len() - i,
    {
        let ghost pre = out@;
        let b = bytes[i];
        if b == 34 || b == 92 {
            out.push(92);
            out.push(b);
            assert(out@ =~= pre + escape_byte(b));
        } else {
            out.push(b);
            assert(out@ =~= pre + escape_byte(b));
        }
        proof {
            assert(bytes@.take(i as int + 1).drop_last() =~= bytes@.take(i as int));
            assert(bytes@.take(i as int + 1).last() == b);
            assert(escape_bytes(bytes@.take(i as int + 1)) == escape_bytes(bytes@.take(i as int))
                + escape_byte(b));
            assert(out@ =~= old(out)@ + escape_bytes(bytes@.take(i as int + 1)));
        }
        i = i + 1;
    }
    proof {
        assert(bytes@.take(bytes@.len() as int) =~= bytes@);
    }
}

/// Appends a JSON string: quote, escaped text, quote.
fn append_json_str(out: &mut Vec<u8>, s: &str)
    ensures
        final(out)@ == old(out)@ + json_str(s@),
{
    let ghost pre = out@;
    out.push(34);
    append_escaped(out, s);
    out.push(34);
    proof {
        assert(out@ =~= pre + json_str(s@));
    }
}

/// Appends a JSON object of the given string members, in order.
fn append_json_object(out: &mut Vec<u8>, entries: &Vec<(String, String)>)
    ensures
        final(out)@ == old(out)@ + json_object(pairs_view(entries@)),
{
    let ghost ev = pairs_view(entries@);
    out.push(123);
    let ghost base = out@;
    let mut i: usize = 0;
    proof {
        assert(ev.take(0) =~= Seq::<(Seq<char>, Seq<char>)>::empty());
        assert(base + json_members(ev.take(0)) =~= base);
    }
    while i < entries.len()
        invariant
            0 <= i <= entries@.len(),
            ev == pairs_view(entries@),
            ev.len() == entries@.len(),
            out@ == base + json_members(ev.take(i as int)),
        decreases entries@.len() - i,
    {
        let ghost pre = out@;
        if i > 0 {
            out.push(44);
        }
        let e = &entries[i];
        proof {
            assert(ev[i as int] == (e.0@, e.1@));
        }
        append_json_str(out, e.0.as_str());
        out.push(58);
        append_json_str(out, e.1.as_str());
        proof {
            assert(ev.take(i as int + 1).drop_last() =~= ev.take(i as int));
            assert(ev.take(i as int + 1).last() == ev[i as int]);
            if i == 0 {
                assert(out@ =~= pre + json_member(ev[0]));
                assert(ev.take(1).len() == 1);
                assert(json_members(ev.take(1)) == json_member(ev.take(1)[0]));
                assert(ev.take(1)[0] == ev[0]);
                assert(out@ =~= base + json_members(ev.take(i as int + 1)));
            } else {
                assert(out@ =~= pre + seq![44u8] + json_member(ev[i as int]));
                assert(ev.take(i as int + 1).len() >= 2);
                assert(json_members(ev.take(i as int + 1)) == json_members(ev.take(i as int))
                    + seq![44u8] + json_member(ev[i as int]));
                assert(out@ =~= base + json_members(ev.take(i as int + 1)));
            }
        }
        i = i + 1;
    }
    out.push(125);
    proof {
        assert(ev.take(ev.len() as int) =~= ev);
        assert(out@ =~= old(out)@ + json_object(ev));
    }
}

/// Appends a JSON array of strings, in order.
fn append_json_strings(out: &mut Vec<u8>, items: &Vec<String>)
    ensures
        final(out)@ == old(out)@ + json_strings(items@.map_values(|s: String| s@)),
{
    let ghost iv = items@.map_values(|s: String| s@);
    let ghost base = out@;
    let mut i: usize = 0;
    proof {
        assert(iv.take(0) =~= Seq::<Seq<char>>::empty());
        assert(base + json_strings(iv.take(0)) =~= base);
    }
    while i < items.len()
        invariant
            0 <= i <= items@.len(),
            iv == items@.map_values(|s: String| s@),
            iv.len() == items@.len(),
            out@ == base + json_strings(iv.take(i as int)),
        decreases items@.len() - i,
    {
        let ghost pre = out@;
        if i > 0 {
            out.push(44);
        }
        proof {
            assert(iv[i as int] == items@[i as int]@);
        }
        append_json_str(out, items[i].as_str());
        proof {
            assert(iv.take(i as int + 1).drop_last() =~= iv.take(i as int));
            assert(iv.take(i as int + 1).last() == iv[i as int]);
            if i == 0 {
                assert(out@ =~= pre + json_str(iv[0]));
                assert(iv.take(1).len() == 1);
                assert(json_strings(iv.take(1)) == json_str(iv.take(1)[0]));
                assert(iv.take(1)[0] == iv[0]);
                assert(out@ =~= base + json_strings(iv.take(i as int + 1)));
            } else {
                assert(out@ =~= pre + seq![44u8] + json_str(iv[i as int]));
                assert(iv.take(i as int + 1).len() >= 2);
                assert(json_strings(iv.take(i as int + 1)) == json_strings(iv.take(i as int))
                    + seq![44u8] + json_str(iv[i as int]));
                assert(out@ =~= base + json_strings(iv.take(i as int + 1)));
            }
        }
        i = i + 1;
    }
    proof {
        assert(iv.take(iv.len() as int) =~= iv);
    }
}

/// Appends the canonical JSON of the provisioning choice.
fn append_provisioning(out: &mut Vec<u8>, p: &Provisioning)
    ensures
        final(out)@ == old(out)@ + json_provisioning(p@),
{
    match p {
        Provisioning::Manual { device_connection_string } => {
            append_lit(out, "{\"source\":\"manual\",\"device_connection_string\":");
            append_json_str(out, device_connection_string.as_str());
            append_lit(out, "}");
        },
        Provisioning::Dps { global_endpoint, scope_id, registration_id } => {
            append_lit(out, "{\"source\":\"dps\",\"global_endpoint\":");
            append_json_str(out, global_endpoint.as_str());
            append_lit(out, ",\"scope_id\":");
            append_json_str(out, scope_id.as_str());
            append_lit(out, ",\"registration_id\":");
            append_json_str(out, registration_id.as_str());
            append_lit(out, "}");
        },
    }
    proof {
        assert(out@ =~= old(out)@ + json_provisioning(p@));
    }
}

/// Appends the canonical JSON of the agent spec.
fn append_agent(out: &mut Vec<u8>, a: &AgentSpec)
    ensures
        final(out)@ == old(out)@ + json_agent(a@),
{
    append_lit(out, "{\"name\":");
    append_json_str(out, a.name.as_str());
    append_lit(out, ",\"type\":");
    append_json_str(out, a.module_type.as_str());
    append_lit(out, ",\"image\":");
    append_json_str(out, a.image.as_str());
    append_lit(out, ",\"binds\":[");
    append_json_strings(out, &a.binds);
    append_lit(out, "],\"env\":");
    append_json_object(out, &a.env);
    append_lit(out, "}");
    proof {
        assert(out@ =~= old(out)@ + json_agent(a@));
    }
}

impl Settings {
    /// Appends the hostname and endpoint members.
    fn append_endpoints(&self, out: &mut Vec<u8>)
        ensures
            final(out)@ == old(out)@ + json_endpoints(self@),
    {
        append_lit(out, ",\"hostname\":");
        append_json_str(out, self.hostname.as_str());
        append_lit(out, ",\"connect\":{\"management_uri\":");
        append_json_str(out, self.connect_management_uri.text.as_str());
        append_lit(out, ",\"workload_uri\":");
        append_json_str(out, self.connect_workload_uri.text.as_str());
        append_lit(out, "},\"listen\":{\"management_uri\":");
        append_json_str(out, self.listen_management_uri.text.as_str());
        append_lit(out, ",\"workload_uri\":");
        append_json_str(out, self.listen_workload_uri.text.as_str());
        append_lit(out, "}");
        proof {
            assert(out@ =~= old(out)@ + json_endpoints(self@));
        }
    }

    /// Appends the home directory and runtime members.
    fn append_trailer(&self, out: &mut Vec<u8>)
        ensures
            final(out)@ == old(out)@ + json_trailer(self@),
    {
        append_lit(out, ",\"homedir\":");
        append_json_str(out, self.homedir.as_str());
        append_lit(out, ",\"moby_runtime\":{\"uri\":");
        append_json_str(out, self.moby_uri.text.as_str());
        append_lit(out, ",\"network\":");
        append_json_str(out, self.moby_network.as_str());
        append_lit(out, "}}");
        proof {
            assert(out@ =~= old(out)@ + json_trailer(self@));
        }
    }

    /// Renders the canonical JSON of these settings.
    pub fn canonical_json_bytes(&self) -> (r: Vec<u8>)
        ensures
            r@ == canonical_json(self@),
    {
        let mut out: Vec<u8> = Vec::new();
        append_lit(&mut out, "{\"provisioning\":");
        append_provisioning(&mut out, &self.provisioning);
        append_lit(&mut out, ",\"agent\":");
        append_agent(&mut out, &self.agent);
        self.append_endpoints(&mut out);
        self.append_trailer(&mut out);
        proof {
            assert(out@ =~= canonical_json(self@));
        }
        out
    }

    /// The settings fingerprint persisted in the state file.
    pub fn fingerprint(&self) -> (r: String)
        ensures
            r@ == spec_fingerprint(self@),
    {
        let json = self.canonical_json_bytes();
        let digest = sha256(&json);
        base64_encode(&digest)
    }

    /// The container network the runtime is told to use: the configured
    /// one, or the daemon's default network name when none is configured.
    pub fn effective_network(&self) -> (r: String)
        ensures
            self.moby_network@.len() == 0 ==> r@ == "azure-iot-edge"@,
            self.moby_network@.len() > 0 ==> r@ == self.moby_network@,
    {
        if self.moby_network.as_str().unicode_len() == 0 {
            "azure-iot-edge".to_owned()
        } else {
            self.moby_network.clone()
        }
    }
}

/// Fingerprint idempotence: the fingerprint is a function of the rendered
/// settings alone, so equal settings always fingerprint equally, across
/// boots and processes.  (That unequal settings fingerprint differently
/// rests on the collision resistance of the digest and is exercised by
/// test, not proved.)
pub proof fn lemma_fingerprint_stable(a: SettingsView, b: SettingsView)
    requires
        a == b,
    ensures
        spec_fingerprint(a) == spec_fingerprint(b),
{
}

} // verus!
