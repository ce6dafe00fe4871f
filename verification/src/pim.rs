use vstd::prelude::*;
use vstd::string::StringExecFns;

verus! {

/// One eligible assignment as the privileged-access service reports it, for
/// group memberships and for directory-wide roles alike.
#[allow(non_snake_case)]
pub struct AssignableGroup {
    pub id: String,
    pub resourceId: String,
    pub roleDefinitionId: String,
    pub subjectId: String,
    pub roleDefinition: RoleDefinition,
}

#[allow(non_snake_case)]
pub struct RoleDefinition {
    pub displayName: String,
    pub resource: RoleResource,
}

#[allow(non_snake_case)]
pub struct RoleResource {
    pub displayName: String,
}

/// The schedule clause of a group or directory-role activation request.
pub struct RoleAssignmentSchedule {
    pub duration: String,
    pub schedule_type: String,
}

/// The body of a group or directory-role activation request.
pub struct RoleAssignment {
    pub assignment_state: String,
    pub linked_eligible_role_assignment_id: String,
    pub reason: String,
    pub resource_id: String,
    pub role_definition_id: String,
    pub schedule: RoleAssignmentSchedule,
    pub scoped_resource_id: String,
    pub subject_id: String,
    pub ticket_number: String,
    pub ticket_system: String,
    pub assignment_type: String,
}

/// Builds the activation body shared by group and directory-role requests: a
/// one-shot user-add to the active state, linked to the eligible assignment,
/// with the operator's justification and duration recorded verbatim.
pub fn build_role_assignment(
    reason: String,
    duration: String,
    resource_id: String,
    role_assignment_id: String,
    role_definition_id: String,
    subject_id: String,
) -> (r: RoleAssignment)
    ensures
        r.assignment_state@ == "Active"@,
        r.linked_eligible_role_assignment_id == role_assignment_id,
        r.reason == reason,
        r.resource_id == resource_id,
        r.role_definition_id == role_definition_id,
        r.schedule.duration == duration,
        r.schedule.schedule_type@ == "Once"@,
        r.scoped_resource_id@ == Seq::<char>::empty(),
        r.subject_id == subject_id,
        r.ticket_number@ == Seq::<char>::empty(),
        r.ticket_system@ == Seq::<char>::empty(),
        r.assignment_type@ == "UserAdd"@,
{
    RoleAssignment {
        assignment_state: "Active".to_owned(),
        linked_eligible_role_assignment_id: role_assignment_id,
        reason,
        resource_id,
        role_definition_id,
        schedule: RoleAssignmentSchedule { duration, schedule_type: "Once".to_owned() },
        scoped_resource_id: String::new(),
        subject_id,
        ticket_number: String::new(),
        ticket_system: String::new(),
        assignment_type: "UserAdd".to_owned(),
    }
}

/// The discovery endpoint for eligible group assignments of a subject: the
/// role definition and its resource expanded, filtered to the subject's
/// eligible assignments.
pub fn group_assignments_url(subject_id: &str) -> (r: String)
    ensures
        r@
            == "https://api.azrbac.mspim.azure.com/api/v2/privilegedAccess/aadGroups/roleAssignments?$expand=roleDefinition($expand=resource)&$filter=(subject/id eq '"@
            + subject_id@ + "')+and+(assignmentState eq 'Eligible')"@,
{
    let mut url =
        "https://api.azrbac.mspim.azure.com/api/v2/privilegedAccess/aadGroups/roleAssignments?$expand=roleDefinition($expand=resource)&$filter=(subject/id eq '".to_owned();
    url.append(subject_id);
    url.append("')+and+(assignmentState eq 'Eligible')");
    url
}

/// The discovery endpoint for eligible directory-role assignments of a
/// subject.
pub fn aad_role_assignments_url(subject_id: &str) -> (r: String)
    ensures
        r@
            == "https://api.azrbac.mspim.azure.com/api/v2/privilegedAccess/aadroles/roleAssignments?$expand=roleDefinition($expand=resource)&$filter=(subject/id eq '"@
            + subject_id@ + "') and (assignmentState eq 'Eligible')"@,
{
    let mut url =
        "https://api.azrbac.mspim.azure.com/api/v2/privilegedAccess/aadroles/roleAssignments?$expand=roleDefinition($expand=resource)&$filter=(subject/id eq '".to_owned();
    url.append(subject_id);
    url.append("') and (assignmentState eq 'Eligible')");
    url
}

/// Where a group activation request is submitted.
pub fn group_request_url() -> (r: String)
    ensures
        r@ == "https://api.azrbac.mspim.azure.com/api/v2/privilegedAccess/aadGroups/roleAssignmentRequests"@,
{
    "https://api.azrbac.mspim.azure.com/api/v2/privilegedAccess/aadGroups/roleAssignmentRequests".to_owned()
}

/// Where a directory-role activation request is submitted.
pub fn aad_role_request_url() -> (r: String)
    ensures
        r@ == "https://api.azrbac.mspim.azure.com/api/v2/privilegedAccess/aadroles/roleAssignmentRequests"@,
{
    "https://api.azrbac.mspim.azure.com/api/v2/privilegedAccess/aadroles/roleAssignmentRequests".to_owned()
}

} // verus!
