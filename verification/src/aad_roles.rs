use vstd::prelude::*;
use vstd::string::StringExecFns;

use crate::catalog::{ActivationCall, Pim};
use crate::pim::AssignableGroup;

verus! {

/// One eligible directory-wide role, as it is cached and displayed.
#[derive(Clone)]
pub struct AadRoleInfo {
    pub role_assignment_id: String,
    pub tenant_id: String,
    pub role_definition_id: String,
    pub role_definition_name: String,
    pub role_name: String,
    pub role_description: Option<String>,
}

/// Whether `info` is the catalog record for the discovered directory-role
/// eligibility `role`. No enrichment lookup exists for directory roles, so
/// the description is always absent.
pub open spec fn aad_role_info_matches(info: AadRoleInfo, role: AssignableGroup) -> bool {
    &&& info.role_assignment_id@ == role.id@
    &&& info.tenant_id@ == role.resourceId@
    &&& info.role_definition_id@ == role.roleDefinitionId@
    &&& info.role_definition_name@ == role.roleDefinition.displayName@
    &&& info.role_name@ == role.roleDefinition.resource.displayName@
    &&& info.role_description is None
}

/// Whether directory-role discovery is performed at all: it is skipped
/// whenever group discovery came back empty.
pub fn aad_discovery_needed(groups: &Vec<AssignableGroup>) -> (r: bool)
    ensures
        r == (groups@.len() > 0),
{
    groups.len() > 0
}

/// Flattens the discovered directory-role eligibilities into the records the
/// catalog and the cache hold; yields nothing when group discovery came back
/// empty, mirroring the skipped fetch.
pub fn build_aad_role_infos(groups: &Vec<AssignableGroup>, roles: &Vec<AssignableGroup>) -> (r:
    Vec<AadRoleInfo>)
    ensures
        groups@.len() == 0 ==> r@.len() == 0,
        groups@.len() > 0 ==> r@.len() == roles@.len(),
        groups@.len() > 0 ==> forall|i: int|
            0 <= i < roles@.len() ==> aad_role_info_matches(#[trigger] r@[i], roles@[i]),
{
    let mut r: Vec<AadRoleInfo> = Vec::new();
    if groups.len() == 0 {
        return r;
    }
    let n = roles.len();
    let mut i: usize = 0;
    while i < n
        invariant
            0 <= i <= n,
            n == roles@.len(),
            r@.len() == i,
            forall|k: int| 0 <= k < i ==> aad_role_info_matches(#[trigger] r@[k], roles@[k]),
        decreases n - i,
    {
        let role = &roles[i];
        r.push(
            AadRoleInfo {
                role_assignment_id: role.id.clone(),
                tenant_id: role.resourceId.clone(),
                role_definition_id: role.roleDefinitionId.clone(),
                role_definition_name: role.roleDefinition.displayName.clone(),
                role_name: role.roleDefinition.resource.displayName.clone(),
                role_description: None,
            },
        );
        i = i + 1;
    }
    r
}

/// The directory-role adapter: wraps one cached record and submits
/// activation requests to the privileged-access service.
pub struct AadRolePim {
    aad_role_info: AadRoleInfo,
}

impl AadRolePim {
    pub closed spec fn spec_info(&self) -> AadRoleInfo {
        self.aad_role_info
    }

    pub fn new(aad_role_info: AadRoleInfo) -> (r: AadRolePim)
        ensures
            r.spec_info() == aad_role_info,
    {
        AadRolePim { aad_role_info }
    }
}

impl Pim for AadRolePim {
    /// Clusters by the description when present, falling back to the role
    /// name.
    open spec fn spec_group_key(&self) -> Seq<char> {
        match self.spec_info().role_description {
            Some(d) => d@,
            None => self.spec_info().role_name@,
        }
    }

    open spec fn spec_label(&self) -> Seq<char> {
        self.spec_info().role_name@ + " ("@ + self.spec_info().role_definition_name@ + ")"@
    }

    open spec fn spec_token_resource(&self) -> Seq<char> {
        "https://api.azrbac.mspim.azure.com"@
    }

    open spec fn spec_call(&self, call: ActivationCall, reason: Seq<char>, duration: Seq<char>) -> bool {
        call matches ActivationCall::AadRole {
            reason: rr,
            duration: dd,
            tenant_id,
            role_assignment_id,
            role_definition_id,
        } && rr@ == reason && dd@ == duration && tenant_id@ == self.spec_info().tenant_id@
            && role_assignment_id@ == self.spec_info().role_assignment_id@
            && role_definition_id@ == self.spec_info().role_definition_id@
    }

    fn group_by(&self) -> (r: String)
        ensures
            r@ == self.spec_group_key(),
    {
        match &self.aad_role_info.role_description {
            Some(d) => d.clone(),
            None => self.aad_role_info.role_name.clone(),
        }
    }

    fn resource_id(&self) -> (r: String)
        ensures
            r@ == self.spec_label(),
    {
        let mut r = self.aad_role_info.role_name.clone();
        r.append(" (");
        r.append(self.aad_role_info.role_definition_name.as_str());
        r.append(")");
        r
    }

    fn token_resource(&self) -> (r: &'static str)
        ensures
            r@ == self.spec_token_resource(),
    {
        "https://api.azrbac.mspim.azure.com"
    }

    fn activate(&self, reason: String, duration: String) -> (r: ActivationCall)
        ensures
            self.spec_call(r, reason@, duration@),
    {
        ActivationCall::AadRole {
            reason,
            duration,
            tenant_id: self.aad_role_info.tenant_id.clone(),
            role_assignment_id: self.aad_role_info.role_assignment_id.clone(),
            role_definition_id: self.aad_role_info.role_definition_id.clone(),
        }
    }
}

} // verus!
