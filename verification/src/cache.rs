//! The settings cache guard.
//!
//! Persistent state from an earlier boot is kept only while the settings
//! fingerprint it was built under still matches.  The guard decides, from
//! the stored fingerprint and the current one, whether everything must be
//! torn down and reinitialized; the caller performs the file and runtime
//! work the decision names and stores the state the decision hands back.

use vstd::prelude::*;

verus! {

use crate::strutil::str_eq;

/// What the guard sees and leaves of the persistent cache.
pub struct CacheState {
    /// Content of the settings state file, when it exists.
    pub state_file: Option<String>,
    /// Whether the cache directory holds anything besides the state file
    /// (the provisioning backup, say).
    pub other_entries: bool,
    /// Whether the master encryption key exists.
    pub master_key: bool,
}

/// The mathematical form of the cache state.
pub struct CacheStateView {
    pub state_file: Option<Seq<char>>,
    pub other_entries: bool,
    pub master_key: bool,
}

impl View for CacheState {
    type V = CacheStateView;

    open spec fn view(&self) -> CacheStateView {
        CacheStateView {
            state_file: match &self.state_file {
                Some(s) => Some(s@),
                None => None,
            },
            other_entries: self.other_entries,
            master_key: self.master_key,
        }
    }
}

/// The side effects a guard run asks of its caller, in the order they are
/// to be performed.
pub struct GuardActions {
    /// Ask the container runtime to remove every module.
    pub remove_all_modules: bool,
    /// Remove the cache directory recursively (its absence is no error)
    /// and recreate it.
    pub clear_cache_dir: bool,
    /// Create the master encryption key (a pre-existing key is no error).
    pub create_master_key: bool,
    /// Write the state file with the fingerprint handed back.
    pub write_state_file: bool,
}

/// Whether stored state drifted away from the current fingerprint.
pub open spec fn drifted(file: Option<Seq<char>>, fp: Seq<char>) -> bool {
    file != Some(fp)
}

/// The guard as a function: the cache state it leaves and whether it acted.
pub open spec fn spec_guard(file: Option<Seq<char>>, fp: Seq<char>) -> (Option<Seq<char>>, bool) {
    if drifted(file, fp) {
        (Some(fp), true)
    } else {
        (file, false)
    }
}

/// Decides whether the stored state matches `fp_now` and, on drift, which
/// side effects reinitialize it.  After the caller performs the actions,
/// the state file exists and equals `fp_now`.
pub fn cache_guard(state: CacheState, fp_now: &String) -> (r: (CacheState, GuardActions))
    ensures
        ({
            let (file, acted) = spec_guard(state@.state_file, fp_now@);
            &&& r.0@.state_file == file
            &&& r.0@.state_file == Some(fp_now@)
            &&& r.1.remove_all_modules == acted
            &&& r.1.clear_cache_dir == acted
            &&& r.1.create_master_key == acted
            &&& r.1.write_state_file == acted
            &&& !acted ==> r.0 == state
            &&& acted ==> !r.0@.other_entries && r.0@.master_key
        }),
{
    let matches_stored = match &state.state_file {
        Some(stored) => str_eq(stored.as_str(), fp_now.as_str()),
        None => false,
    };
    if matches_stored {
        let actions = GuardActions {
            remove_all_modules: false,
            clear_cache_dir: false,
            create_master_key: false,
            write_state_file: false,
        };
        (state, actions)
    } else {
        let next = CacheState {
            state_file: Some(fp_now.clone()),
            other_entries: false,
            master_key: true,
        };
        let actions = GuardActions {
            remove_all_modules: true,
            clear_cache_dir: true,
            create_master_key: true,
            write_state_file: true,
        };
        (next, actions)
    }
}

/// Cache guard fixed point: once a guard run has left the state file equal
/// to the fingerprint, a second run under the same fingerprint acts on
/// nothing and leaves the state exactly as it found it.
pub proof fn lemma_cache_guard_fixed_point(file: Option<Seq<char>>, fp: Seq<char>)
    ensures
        ({
            let (f1, _) = spec_guard(file, fp);
            let (f2, acted2) = spec_guard(f1, fp);
            f2 == f1 && !acted2
        }),
{
}

} // verus!
