use spritecollab::cache::{lookup_action, miss_outcome, CacheError, LookupAction, StoreLookup};
use spritecollab::sprite_collab::CacheBehaviour;

#[test]
fn store_failure_aborts() {
    let looked = StoreLookup::Unreachable(CacheError { message: String::from("connection reset") });
    match lookup_action(looked) {
        LookupAction::Abort(e) => assert_eq!(e.message, "connection reset"),
        _ => panic!("a store failure must abort"),
    }
}

#[test]
fn hit_is_served_without_computing() {
    let looked = StoreLookup::Hit(String::from("\"cached\""));
    match lookup_action(looked) {
        LookupAction::UseHit(s) => assert_eq!(s, "\"cached\""),
        _ => panic!("a hit must be served"),
    }
}

#[test]
fn miss_runs_the_computation() {
    assert!(matches!(lookup_action(StoreLookup::Miss), LookupAction::RunCompute));
}

#[test]
fn domain_error_is_returned_as_inner_error_and_never_stored() {
    let computed: Result<CacheBehaviour<u32>, &str> = Err("lookup failed");
    let (write, result) = miss_outcome(computed, None);
    assert!(write.is_none());
    assert_eq!(result, Err("lookup failed"));
}

#[test]
fn no_cache_value_is_returned_but_never_stored() {
    // even on repeated rounds with the same key, nothing is written
    for _ in 0..3 {
        let computed: Result<CacheBehaviour<u32>, &str> = Ok(CacheBehaviour::NoCache(7));
        let (write, result) = miss_outcome(computed, Some(String::from("7")));
        assert!(write.is_none());
        assert_eq!(result, Ok(7));
    }
}

#[test]
fn cache_value_is_stored_as_serialized_and_returned() {
    let computed: Result<CacheBehaviour<u32>, &str> = Ok(CacheBehaviour::Cache(7));
    let (write, result) = miss_outcome(computed, Some(String::from("7")));
    assert_eq!(write, Some(String::from("7")));
    assert_eq!(result, Ok(7));
}

#[test]
fn failed_serialization_is_fail_open() {
    let computed: Result<CacheBehaviour<u32>, &str> = Ok(CacheBehaviour::Cache(7));
    let (write, result) = miss_outcome(computed, None);
    assert!(write.is_none());
    assert_eq!(result, Ok(7));
}
