use vstd::prelude::*;
use vstd::string::{StrSliceExecFns, StringExecFns};

use crate::catalog::{ActivationCall, Pim};
use crate::graph::GraphGroup;
use crate::opt_view;
use crate::pim::AssignableGroup;

verus! {

/// One eligible group membership, as it is cached and displayed.
#[derive(Clone)]
pub struct GroupInfo {
    pub role_assignment_id: String,
    pub group_object_id: String,
    pub role_definition_id: String,
    pub role_definition_name: String,
    pub group_name: String,
    pub group_description: Option<String>,
}

/// The first directory group carrying this identifier, when the enrichment
/// lookup returned one.
pub open spec fn find_graph(extra: Seq<GraphGroup>, id: Seq<char>) -> Option<GraphGroup>
    decreases extra.len(),
{
    if extra.len() == 0 {
        None
    } else if extra[0].id@ == id {
        Some(extra[0])
    } else {
        find_graph(extra.drop_first(), id)
    }
}

/// The description the enrichment lookup attaches to a group: the directory
/// group's description, or its display name when no description is set.
pub open spec fn spec_description(extra: Seq<GraphGroup>, id: Seq<char>) -> Option<Seq<char>> {
    match find_graph(extra, id) {
        None => None,
        Some(g) => Some(
            match g.description {
                Some(d) => d@,
                None => g.display_name@,
            },
        ),
    }
}

proof fn lemma_find_graph_skip(extra: Seq<GraphGroup>, id: Seq<char>, i: int)
    requires
        0 <= i <= extra.len(),
        forall|k: int| 0 <= k < i ==> (#[trigger] extra[k]).id@ != id,
    ensures
        find_graph(extra, id) == find_graph(extra.skip(i), id),
    decreases i,
{
    if i > 0 {
        assert(extra[0].id@ != id);
        assert forall|k: int| 0 <= k < i - 1 implies (#[trigger] extra.drop_first()[k]).id@
            != id by {
            assert(extra[k + 1].id@ != id);
        }
        lemma_find_graph_skip(extra.drop_first(), id, i - 1);
        assert(extra.drop_first().skip(i - 1) =~= extra.skip(i));
    } else {
        assert(extra.skip(0) =~= extra);
    }
}

fn find_description(extra: &Vec<GraphGroup>, id: &String) -> (r: Option<String>)
    ensures
        opt_view(r) == spec_description(extra@, id@),
{
    let n = extra.len();
    let mut i: usize = 0;
    while i < n
        invariant
            0 <= i <= n,
            n == extra@.len(),
            forall|k: int| 0 <= k < i ==> (#[trigger] extra@[k]).id@ != id@,
        decreases n - i,
    {
        if extra[i].id == *id {
            proof {
                lemma_find_graph_skip(extra@, id@, i as int);
                assert(extra@.skip(i as int)[0] == extra@[i as int]);
            }
            let g = &extra[i];
            let r = match &g.description {
                Some(d) => d.clone(),
                None => g.display_name.clone(),
            };
            return Some(r);
        }
        i = i + 1;
    }
    proof {
        lemma_find_graph_skip(extra@, id@, n as int);
        assert(extra@.skip(n as int).len() == 0);
    }
    None
}

/// Whether `info` is the catalog record for the discovered assignment `g`,
/// enriched from the directory lookup's result.
pub open spec fn group_info_matches(
    info: GroupInfo,
    g: AssignableGroup,
    extra: Seq<GraphGroup>,
) -> bool {
    &&& info.role_assignment_id@ == g.id@
    &&& info.group_object_id@ == g.resourceId@
    &&& info.role_definition_id@ == g.roleDefinitionId@
    &&& info.role_definition_name@ == g.roleDefinition.displayName@
    &&& info.group_name@ == g.roleDefinition.resource.displayName@
    &&& opt_view(info.group_description) == spec_description(extra, g.resourceId@)
}

/// Joins each discovered group assignment with the directory lookup's
/// enrichment, producing the records the catalog and the cache hold.
pub fn build_group_infos(groups: &Vec<AssignableGroup>, extra: &Vec<GraphGroup>) -> (r: Vec<
    GroupInfo,
>)
    ensures
        r@.len() == groups@.len(),
        forall|i: int|
            0 <= i < groups@.len() ==> group_info_matches(#[trigger] r@[i], groups@[i], extra@),
{
    let n = groups.len();
    let mut r: Vec<GroupInfo> = Vec::new();
    let mut i: usize = 0;
    while i < n
        invariant
            0 <= i <= n,
            n == groups@.len(),
            r@.len() == i,
            forall|k: int|
                0 <= k < i ==> group_info_matches(#[trigger] r@[k], groups@[k], extra@),
        decreases n - i,
    {
        let g = &groups[i];
        let info = GroupInfo {
            role_assignment_id: g.id.clone(),
            group_description: find_description(extra, &g.resourceId),
            group_object_id: g.resourceId.clone(),
            role_definition_id: g.roleDefinitionId.clone(),
            role_definition_name: g.roleDefinition.displayName.clone(),
            group_name: g.roleDefinition.resource.displayName.clone(),
        };
        r.push(info);
        i = i + 1;
    }
    r
}

/// The batched OR-joined filter expression that resolves every discovered
/// group identifier in one directory lookup.
pub open spec fn or_clauses(groups: Seq<AssignableGroup>) -> Seq<char>
    decreases groups.len(),
{
    if groups.len() == 0 {
        Seq::empty()
    } else {
        or_clauses(groups.drop_last()) + "or id eq '"@ + groups.last().resourceId@ + "'"@
    }
}

proof fn lemma_or_clauses_len(groups: Seq<AssignableGroup>)
    ensures
        groups.len() > 0 ==> or_clauses(groups).len() >= 11,
    decreases groups.len(),
{
    if groups.len() > 0 {
        lemma_or_clauses_len(groups.drop_last());
        reveal_strlit("or id eq '");
        reveal_strlit("'");
    }
}

/// Builds the one batched directory query for all discovered groups: the
/// OR-joined identifier clauses, with the leading separator cut off behind a
/// "$filter=" prefix.
pub fn create_group_query(groups: &Vec<AssignableGroup>) -> (r: String)
    requires
        groups@.len() > 0,
    ensures
        r@ == "$filter="@ + or_clauses(groups@).skip(3),
{
    let n = groups.len();
    let mut acc = String::new();
    let mut i: usize = 0;
    proof {
        assert(acc@ =~= or_clauses(groups@.take(0)));
    }
    while i < n
        invariant
            0 <= i <= n,
            n == groups@.len(),
            acc@ == or_clauses(groups@.take(i as int)),
        decreases n - i,
    {
        acc.append("or id eq '");
        acc.append(groups[i].resourceId.as_str());
        acc.append("'");
        proof {
            assert(groups@.take(i + 1).drop_last() =~= groups@.take(i as int));
            assert(groups@.take(i + 1).last() == groups@[i as int]);
        }
        i = i + 1;
    }
    proof {
        assert(groups@.take(n as int) =~= groups@);
        lemma_or_clauses_len(groups@);
    }
    let acc_len = acc.as_str().unicode_len();
    let tail = acc.as_str().substring_char(3, acc_len);
    let mut r = "$filter=".to_owned();
    r.append(tail);
    proof {
        assert(or_clauses(groups@).skip(3) =~= acc@.subrange(3, acc_len as int));
    }
    r
}

/// The group-membership adapter: wraps one cached record and submits group
/// activation requests to the privileged-access service.
pub struct GroupPim {
    group_info: GroupInfo,
}

impl GroupPim {
    pub closed spec fn spec_info(&self) -> GroupInfo {
        self.group_info
    }

    pub fn new(group_info: GroupInfo) -> (r: GroupPim)
        ensures
            r.spec_info() == group_info,
    {
        GroupPim { group_info }
    }
}

impl Pim for GroupPim {
    /// Clusters by the enriched description, falling back to the group name.
    open spec fn spec_group_key(&self) -> Seq<char> {
        match self.spec_info().group_description {
            Some(d) => d@,
            None => self.spec_info().group_name@,
        }
    }

    open spec fn spec_label(&self) -> Seq<char> {
        self.spec_info().group_name@ + " ("@ + self.spec_info().role_definition_name@ + ")"@
    }

    open spec fn spec_token_resource(&self) -> Seq<char> {
        "https://api.azrbac.mspim.azure.com"@
    }

    open spec fn spec_call(&self, call: ActivationCall, reason: Seq<char>, duration: Seq<char>) -> bool {
        call matches ActivationCall::Group {
            reason: rr,
            duration: dd,
            group_id,
            role_assignment_id,
            role_definition_id,
        } && rr@ == reason && dd@ == duration && group_id@ == self.spec_info().group_object_id@
            && role_assignment_id@ == self.spec_info().role_assignment_id@
            && role_definition_id@ == self.spec_info().role_definition_id@
    }

    fn group_by(&self) -> (r: String)
        ensures
            r@ == self.spec_group_key(),
    {
        match &self.group_info.group_description {
            Some(d) => d.clone(),
            None => self.group_info.group_name.clone(),
        }
    }

    fn resource_id(&self) -> (r: String)
        ensures
            r@ == self.spec_label(),
    {
        let mut r = self.group_info.group_name.clone();
        r.append(" (");
        r.append(self.group_info.role_definition_name.as_str());
        r.append(")");
        r
    }

    fn token_resource(&self) -> (r: &'static str)
        ensures
            r@ == self.spec_token_resource(),
    {
        "https://api.azrbac.mspim.azure.com"
    }

    fn activate(&self, reason: String, duration: String) -> (r: ActivationCall)
        ensures
            self.spec_call(r, reason@, duration@),
    {
        ActivationCall::Group {
            reason,
            duration,
            group_id: self.group_info.group_object_id.clone(),
            role_assignment_id: self.group_info.role_assignment_id.clone(),
            role_definition_id: self.group_info.role_definition_id.clone(),
        }
    }
}

} // verus!
