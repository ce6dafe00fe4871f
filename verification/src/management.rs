use vstd::prelude::*;
use vstd::string::StringExecFns;

verus! {

/// A named entity inside a resource-role eligibility record.
pub struct RoleNamedResource {
    pub id: String,
    pub display_name: String,
}

/// The expanded display data of a resource-role eligibility record.
pub struct ExpandedProperties {
    pub role_definition: RoleNamedResource,
    pub scope: RoleNamedResource,
}

pub struct RoleProperties {
    pub role_definition_id: String,
    pub expanded_properties: ExpandedProperties,
}

/// One eligible resource-scoped role, as the management service reports it.
pub struct Role {
    pub properties: RoleProperties,
    pub name: String,
    pub id: String,
}

/// The expiry clause of a resource-role activation request.
pub struct RoleAssignmentExpiration {
    pub expiry_type: String,
    pub duration: String,
}

pub struct RoleAssignmentScheduleInfo {
    pub expiration: RoleAssignmentExpiration,
}

pub struct RoleAssignmentProperties {
    pub role_definition_id: String,
    pub principal_id: String,
    pub request_type: String,
    pub justification: String,
    pub schedule_info: RoleAssignmentScheduleInfo,
}

/// The body of a resource-role activation request.
pub struct RoleAssignmentRequest {
    pub properties: RoleAssignmentProperties,
}

/// Builds the resource-role activation body: a self-activation for the given
/// principal, expiring after the given duration, with the operator's
/// justification recorded verbatim.
pub fn build_role_activation_request(
    reason: String,
    duration: String,
    role_definition_id: String,
    principal_id: String,
) -> (r: RoleAssignmentRequest)
    ensures
        r.properties.role_definition_id == role_definition_id,
        r.properties.principal_id == principal_id,
        r.properties.request_type@ == "SelfActivate"@,
        r.properties.justification == reason,
        r.properties.schedule_info.expiration.expiry_type@ == "AfterDuration"@,
        r.properties.schedule_info.expiration.duration == duration,
{
    RoleAssignmentRequest {
        properties: RoleAssignmentProperties {
            role_definition_id,
            principal_id,
            request_type: "SelfActivate".to_owned(),
            justification: reason,
            schedule_info: RoleAssignmentScheduleInfo {
                expiration: RoleAssignmentExpiration {
                    expiry_type: "AfterDuration".to_owned(),
                    duration,
                },
            },
        },
    }
}

/// The discovery endpoint for resource-role eligibilities of the caller.
pub fn role_eligibility_url() -> (r: String)
    ensures
        r@
            == "https://management.azure.com/providers/Microsoft.Authorization/roleEligibilityScheduleInstances?api-version=2020-10-01&$filter=asTarget()"@,
{
    "https://management.azure.com/providers/Microsoft.Authorization/roleEligibilityScheduleInstances?api-version=2020-10-01&$filter=asTarget()".to_owned()
}

/// The endpoint a resource-role activation is submitted to: the scope's
/// schedule-request collection, under a fresh request identifier.
pub fn role_activation_url(scope: &str, role_assignment_id: &str) -> (r: String)
    ensures
        r@ == "https://management.azure.com"@ + scope@
            + "/providers/Microsoft.Authorization/roleAssignmentScheduleRequests/"@
            + role_assignment_id@ + "?api-version=2020-10-01"@,
{
    let mut url = "https://management.azure.com".to_owned();
    url.append(scope);
    url.append("/providers/Microsoft.Authorization/roleAssignmentScheduleRequests/");
    url.append(role_assignment_id);
    url.append("?api-version=2020-10-01");
    url
}

} // verus!
