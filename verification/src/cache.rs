use vstd::prelude::*;
use vstd::string::StringExecFns;

use crate::aad_roles::AadRoleInfo;
use crate::group::GroupInfo;
use crate::role::RoleInfo;

verus! {

/// The last-known eligible-assignment list of one resource kind, as the disk
/// cache mirrors it in memory: absent until first stored, then replaced
/// wholesale — never partially merged.
pub struct CacheState<T> {
    entry: Option<Vec<T>>,
}

impl<T> CacheState<T> {
    /// The kind's cached list, when one is present.
    pub closed spec fn spec_entry(&self) -> Option<Seq<T>> {
        match self.entry {
            Some(v) => Some(v@),
            None => None,
        }
    }

    /// No entry on disk for this kind yet.
    pub fn empty() -> (r: Self)
        ensures
            r.spec_entry() is None,
    {
        CacheState { entry: None }
    }

    /// An entry read back from the kind's file.
    pub fn loaded(data: Vec<T>) -> (r: Self)
        ensures
            r.spec_entry() == Some(data@),
    {
        CacheState { entry: Some(data) }
    }

    /// Overwrites the kind's entry wholesale with a freshly produced list,
    /// whether or not one was present.
    pub fn store(&mut self, data: Vec<T>)
        ensures
            final(self).spec_entry() == Some(data@),
    {
        self.entry = Some(data);
    }

    pub fn entry(&self) -> (r: Option<&Vec<T>>)
        ensures
            r is Some <==> self.spec_entry() is Some,
            r is Some ==> r.unwrap()@ == self.spec_entry().unwrap(),
    {
        match &self.entry {
            Some(v) => Some(v),
            None => None,
        }
    }
}

/// The cache policy: what a lookup yields given the refresh override and the
/// kind's present entry. `None` means the producer must be invoked and its
/// result stored.
pub open spec fn spec_get_or_fetch<T>(refresh: bool, entry: Option<Seq<T>>) -> Option<Seq<T>> {
    if !refresh && entry is Some {
        entry
    } else {
        None
    }
}

/// The discovery cache's policy switch: when `refresh` is set, every kind's
/// entry is bypassed and repopulated.
pub struct Cache {
    pub refresh: bool,
}

impl Cache {
    /// The kind's cache file, relative to the operator's home directory.
    pub fn get_cache_file(cache_type: &str) -> (r: String)
        ensures
            r@ == ".config/pimple/cache/"@ + cache_type@,
    {
        let mut path = ".config/pimple/cache/".to_owned();
        path.append(cache_type);
        path
    }

    /// One kind's lookup: without the refresh override, a present entry is
    /// returned as it stands and the producer is not consulted; otherwise the
    /// caller must invoke the producer and `store` its result.
    pub fn get_or_fetch<'a, T>(&self, state: &'a CacheState<T>) -> (r: Option<&'a Vec<T>>)
        ensures
            r is Some <==> spec_get_or_fetch(self.refresh, state.spec_entry()) is Some,
            r is Some ==> Some(r.unwrap()@) == spec_get_or_fetch(self.refresh, state.spec_entry()),
    {
        if self.refresh {
            None
        } else {
            state.entry()
        }
    }

    /// The group-membership kind's cache lookup.
    pub fn fetch_group_cache<'a>(&self, state: &'a CacheState<GroupInfo>) -> (r: Option<
        &'a Vec<GroupInfo>,
    >)
        ensures
            r is Some <==> spec_get_or_fetch(self.refresh, state.spec_entry()) is Some,
            r is Some ==> Some(r.unwrap()@) == spec_get_or_fetch(self.refresh, state.spec_entry()),
    {
        self.get_or_fetch(state)
    }

    /// The resource-role kind's cache lookup.
    pub fn fetch_role_info_cache<'a>(&self, state: &'a CacheState<RoleInfo>) -> (r: Option<
        &'a Vec<RoleInfo>,
    >)
        ensures
            r is Some <==> spec_get_or_fetch(self.refresh, state.spec_entry()) is Some,
            r is Some ==> Some(r.unwrap()@) == spec_get_or_fetch(self.refresh, state.spec_entry()),
    {
        self.get_or_fetch(state)
    }

    /// The directory-role kind's cache lookup.
    pub fn fetch_aad_role_cache<'a>(&self, state: &'a CacheState<AadRoleInfo>) -> (r: Option<
        &'a Vec<AadRoleInfo>,
    >)
        ensures
            r is Some <==> spec_get_or_fetch(self.refresh, state.spec_entry()) is Some,
            r is Some ==> Some(r.unwrap()@) == spec_get_or_fetch(self.refresh, state.spec_entry()),
    {
        self.get_or_fetch(state)
    }
}

/// Law (cache round-trip): with refresh disabled, a stored list is returned
/// identically by the next lookup, and the producer is not consulted — the
/// lookup's result is the stored entry itself.
pub proof fn lemma_cache_round_trip<T>(data: Seq<T>)
    ensures
        spec_get_or_fetch(false, Some(data)) == Some(data),
{
}

/// Law (cache bypass): with refresh enabled the lookup never yields a cached
/// entry, present and valid or not, so the producer is always invoked; the
/// subsequent `store` overwrites whatever entry existed.
pub proof fn lemma_cache_bypass<T>(entry: Option<Seq<T>>)
    ensures
        spec_get_or_fetch(true, entry) is None,
{
}

} // verus!
