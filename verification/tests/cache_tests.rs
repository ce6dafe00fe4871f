use pimple::cache::{Cache, CacheState};
use pimple::group::GroupInfo;

fn sample_info(name: &str) -> GroupInfo {
    GroupInfo {
        role_assignment_id: format!("assignment-{}", name),
        group_object_id: format!("object-{}", name),
        role_definition_id: format!("definition-{}", name),
        role_definition_name: "Member".to_string(),
        group_name: name.to_string(),
        group_description: None,
    }
}

#[test]
fn round_trip_returns_stored_list_without_refetch() {
    let mut state: CacheState<GroupInfo> = CacheState::empty();
    state.store(vec![sample_info("alpha"), sample_info("beta")]);
    let cache = Cache { refresh: false };
    let hit = cache.get_or_fetch(&state).expect("a stored entry must be returned");
    assert_eq!(hit.len(), 2);
    assert_eq!(hit[0].group_name, "alpha");
    assert_eq!(hit[1].group_name, "beta");
    assert_eq!(hit[0].role_assignment_id, "assignment-alpha");
}

#[test]
fn absent_entry_requires_fetch() {
    let state: CacheState<GroupInfo> = CacheState::empty();
    let cache = Cache { refresh: false };
    assert!(cache.get_or_fetch(&state).is_none());
}

#[test]
fn refresh_bypasses_a_present_entry() {
    let state = CacheState::loaded(vec![sample_info("alpha")]);
    let cache = Cache { refresh: true };
    assert!(cache.get_or_fetch(&state).is_none());
}

#[test]
fn refresh_store_overwrites_wholesale() {
    let mut state = CacheState::loaded(vec![sample_info("old-1"), sample_info("old-2")]);
    state.store(vec![sample_info("fresh")]);
    let entry = state.entry().expect("freshly stored entry");
    assert_eq!(entry.len(), 1);
    assert_eq!(entry[0].group_name, "fresh");
}

#[test]
fn kind_lookups_share_the_policy() {
    let mut state: CacheState<GroupInfo> = CacheState::empty();
    state.store(vec![sample_info("alpha")]);
    let cache = Cache { refresh: false };
    assert!(cache.fetch_group_cache(&state).is_some());
    let bypass = Cache { refresh: true };
    assert!(bypass.fetch_group_cache(&state).is_none());
}

#[test]
fn cache_files_live_under_the_fixed_directory() {
    assert_eq!(Cache::get_cache_file("groups.json"), ".config/pimple/cache/groups.json");
    assert_eq!(Cache::get_cache_file("roles.json"), ".config/pimple/cache/roles.json");
    assert_eq!(Cache::get_cache_file("aad_roles.json"), ".config/pimple/cache/aad_roles.json");
}
