use vstd::prelude::*;
use vstd::string::StringExecFns;

use crate::catalog::{ActivationCall, Pim};
use crate::management::Role;

verus! {

/// One eligible resource-scoped role, as it is cached and displayed.
#[derive(Clone)]
pub struct RoleInfo {
    pub role_name: String,
    pub scope_name: String,
    pub scope: String,
    pub role_definition_id: String,
}

/// Whether `info` is the catalog record for the discovered eligibility `role`.
pub open spec fn role_info_matches(info: RoleInfo, role: Role) -> bool {
    &&& info.role_name@ == role.properties.expanded_properties.role_definition.display_name@
    &&& info.scope_name@ == role.properties.expanded_properties.scope.display_name@
    &&& info.scope@ == role.properties.expanded_properties.scope.id@
    &&& info.role_definition_id@ == role.properties.role_definition_id@
}

/// Flattens the management service's eligibility records into the records
/// the catalog and the cache hold.
pub fn build_role_infos(roles: &Vec<Role>) -> (r: Vec<RoleInfo>)
    ensures
        r@.len() == roles@.len(),
        forall|i: int| 0 <= i < roles@.len() ==> role_info_matches(#[trigger] r@[i], roles@[i]),
{
    let n = roles.len();
    let mut r: Vec<RoleInfo> = Vec::new();
    let mut i: usize = 0;
    while i < n
        invariant
            0 <= i <= n,
            n == roles@.len(),
            r@.len() == i,
            forall|k: int| 0 <= k < i ==> role_info_matches(#[trigger] r@[k], roles@[k]),
        decreases n - i,
    {
        let role = &roles[i];
        r.push(
            RoleInfo {
                role_name: role.properties.expanded_properties.role_definition.display_name.clone(),
                scope_name: role.properties.expanded_properties.scope.display_name.clone(),
                scope: role.properties.expanded_properties.scope.id.clone(),
                role_definition_id: role.properties.role_definition_id.clone(),
            },
        );
        i = i + 1;
    }
    r
}

/// Relies on uuid's Uuid::new_v4 and its hyphenated textual form: the value
/// is random, so nothing is claimed of it beyond its printed length of 36
/// characters.
#[verifier::external_body]
fn new_request_id() -> (r: String)
    ensures
        r@.len() == 36,
{
    uuid::Uuid::new_v4().to_string()
}

/// The resource-role adapter: wraps one cached record and submits activation
/// requests to the management service under a fresh request identifier.
pub struct RolePim {
    role_info: RoleInfo,
}

impl RolePim {
    pub closed spec fn spec_info(&self) -> RoleInfo {
        self.role_info
    }

    pub fn new(role_info: RoleInfo) -> (r: RolePim)
        ensures
            r.spec_info() == role_info,
    {
        RolePim { role_info }
    }
}

impl Pim for RolePim {
    /// Clusters by the role's display name.
    open spec fn spec_group_key(&self) -> Seq<char> {
        self.spec_info().role_name@
    }

    open spec fn spec_label(&self) -> Seq<char> {
        self.spec_info().scope_name@
    }

    open spec fn spec_token_resource(&self) -> Seq<char> {
        "https://management.azure.com"@
    }

    open spec fn spec_call(&self, call: ActivationCall, reason: Seq<char>, duration: Seq<char>) -> bool {
        call matches ActivationCall::Role {
            reason: rr,
            duration: dd,
            scope,
            role_definition_id,
            role_assignment_id,
        } && rr@ == reason && dd@ == duration && scope@ == self.spec_info().scope@
            && role_definition_id@ == self.spec_info().role_definition_id@
            && role_assignment_id@.len() == 36
    }

    fn group_by(&self) -> (r: String)
        ensures
            r@ == self.spec_group_key(),
    {
        self.role_info.role_name.clone()
    }

    fn resource_id(&self) -> (r: String)
        ensures
            r@ == self.spec_label(),
    {
        self.role_info.scope_name.clone()
    }

    fn token_resource(&self) -> (r: &'static str)
        ensures
            r@ == self.spec_token_resource(),
    {
        "https://management.azure.com"
    }

    /// The request identifier is drawn fresh for every activation; the rest
    /// of the request is pinned to this record and the operator's input.
    fn activate(&self, reason: String, duration: String) -> (r: ActivationCall)
        ensures
            self.spec_call(r, reason@, duration@),
    {
        ActivationCall::Role {
            reason,
            duration,
            scope: self.role_info.scope.clone(),
            role_definition_id: self.role_info.role_definition_id.clone(),
            role_assignment_id: new_request_id(),
        }
    }
}

} // verus!
