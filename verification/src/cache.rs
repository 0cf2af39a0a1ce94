//! The get-or-compute layer over the external key/value cache store.
//!
//! The store itself is reached over the network by the unverified shell;
//! this module decides, for each phase of a `cached_or_compute` round,
//! what the shell must do and what the caller gets back. The two-level
//! result shape keeps "the store itself is unreachable" separate from
//! "the computation's own logic failed", and a cache-write failure is
//! fail-open: it never surfaces to the caller.

use crate::sprite_collab::CacheBehaviour;
use vstd::prelude::*;

verus! {

/// Failure of the external cache store itself, as opposed to a failure
/// of the computation run on a miss.
pub struct CacheError {
    pub message: String,
}

/// What the store lookup for a key yielded: the store was unreachable,
/// a serialized entry was found, or the key is absent.
pub enum StoreLookup {
    Unreachable(CacheError),
    Hit(String),
    Miss,
}

/// What the shell must do after the lookup phase.
pub enum LookupAction {
    /// Surface the store failure to the caller as the outer error.
    Abort(CacheError),
    /// Deserialize the found entry and return it as the caller's value.
    UseHit(String),
    /// Run the caller's computation; then apply `miss_outcome`.
    RunCompute,
}

/// What `lookup_action` decides: a store failure aborts, a hit is
/// served, only a miss runs the computation.
pub open spec fn lookup_action_spec(looked_up: StoreLookup) -> LookupAction {
    match looked_up {
        StoreLookup::Unreachable(e) => LookupAction::Abort(e),
        StoreLookup::Hit(s) => LookupAction::UseHit(s),
        StoreLookup::Miss => LookupAction::RunCompute,
    }
}

/// Decides the lookup phase: a store failure aborts, a hit is served,
/// only a miss runs the computation.
pub fn lookup_action(looked_up: StoreLookup) -> (a: LookupAction)
    ensures
        a == lookup_action_spec(looked_up),
{
    match looked_up {
        StoreLookup::Unreachable(e) => LookupAction::Abort(e),
        StoreLookup::Hit(s) => LookupAction::UseHit(s),
        StoreLookup::Miss => LookupAction::RunCompute,
    }
}

/// What `miss_outcome` decides: a domain error is handed back untouched
/// and nothing is written; a "do not cache" value is handed back and
/// nothing is written; a "cache" value is handed back and its serialized
/// form (when serialization succeeded) is written.
pub open spec fn miss_outcome_spec<T, E>(
    computed: Result<CacheBehaviour<T>, E>,
    serialized: Option<String>,
) -> (Option<String>, Result<T, E>) {
    match computed {
        Err(e) => (None, Err(e)),
        Ok(CacheBehaviour::NoCache(v)) => (None, Ok(v)),
        Ok(CacheBehaviour::Cache(v)) => (serialized, Ok(v)),
    }
}

/// Decides the end of a miss round. `computed` is what the caller's
/// computation yielded; `serialized` is the shell's serialization of the
/// computed value (`None` when serializing failed, which is fail-open).
/// Returns the entry the shell must write to the store -- `None` means
/// write nothing -- and the value handed back to the caller.
///
/// A domain error is returned as the inner error, never as a store
/// failure; a "do not cache" value is never written; a "cache" value is
/// written exactly as serialized, and is returned to the caller even if
/// the write later fails.
pub fn miss_outcome<T, E>(computed: Result<CacheBehaviour<T>, E>, serialized: Option<String>) -> (r:
    (Option<String>, Result<T, E>))
    ensures
        r == miss_outcome_spec(computed, serialized),
{
    match computed {
        Err(e) => (None, Err(e)),
        Ok(CacheBehaviour::NoCache(v)) => (None, Ok(v)),
        Ok(CacheBehaviour::Cache(v)) => (serialized, Ok(v)),
    }
}

/// The overall result of one `cached_or_compute` round, as a function of
/// the store lookup, the value a hit deserializes to, and (on a miss)
/// the computation's result.
pub open spec fn cached_or_compute_result<T, E>(
    looked_up: StoreLookup,
    hit_value: T,
    computed: Result<CacheBehaviour<T>, E>,
) -> Result<Result<T, E>, CacheError> {
    match looked_up {
        StoreLookup::Unreachable(e) => Err(e),
        StoreLookup::Hit(_) => Ok(Ok(hit_value)),
        StoreLookup::Miss => match computed {
            Err(e) => Ok(Err(e)),
            Ok(CacheBehaviour::Cache(v)) => Ok(Ok(v)),
            Ok(CacheBehaviour::NoCache(v)) => Ok(Ok(v)),
        },
    }
}

/// The entry written to the store in one round, as a function of the
/// same inputs: nothing unless a miss ran a computation that opted in to
/// caching and serialized successfully.
pub open spec fn cached_or_compute_written<T, E>(
    looked_up: StoreLookup,
    computed: Result<CacheBehaviour<T>, E>,
    serialized: Option<String>,
) -> Option<String> {
    match looked_up {
        StoreLookup::Miss => match computed {
            Ok(CacheBehaviour::Cache(_)) => serialized,
            _ => None,
        },
        _ => None,
    }
}

/// The two failure kinds are never conflated: a round returns a
/// store failure exactly when the store itself was unreachable, and
/// returns the domain error exactly when a miss ran the computation and
/// the computation itself failed.
pub proof fn lemma_failures_not_conflated<T, E>(
    looked_up: StoreLookup,
    hit_value: T,
    computed: Result<CacheBehaviour<T>, E>,
)
    ensures
        cached_or_compute_result(looked_up, hit_value, computed) is Err <==> looked_up
            is Unreachable,
        cached_or_compute_result(looked_up, hit_value, computed) matches Ok(inner) && inner is Err
            <==> looked_up is Miss && computed is Err,
{
}

/// A "do not cache" result is never written to the store, on this or
/// any repeated round with the same key: no round whose computation
/// answered `NoCache` writes anything.
pub proof fn lemma_no_cache_never_stored<T, E>(
    looked_up: StoreLookup,
    computed: Result<CacheBehaviour<T>, E>,
    serialized: Option<String>,
)
    requires
        computed matches Ok(b) && b is NoCache,
    ensures
        cached_or_compute_written(looked_up, computed, serialized) is None,
{
}

} // verus!
