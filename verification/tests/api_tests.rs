use pimple::aad_roles::build_aad_role_infos;
use pimple::graph::{groups_url, GraphGroup};
use pimple::group::{build_group_infos, create_group_query};
use pimple::management::{
    build_role_activation_request, role_activation_url, role_eligibility_url, ExpandedProperties,
    Role, RoleNamedResource, RoleProperties,
};
use pimple::pim::{
    aad_role_assignments_url, aad_role_request_url, build_role_assignment, group_assignments_url,
    group_request_url, AssignableGroup, RoleDefinition, RoleResource,
};
use pimple::role::build_role_infos;

fn assignment(id: &str, resource_id: &str) -> AssignableGroup {
    AssignableGroup {
        id: id.to_string(),
        resourceId: resource_id.to_string(),
        roleDefinitionId: format!("def-{}", id),
        subjectId: "subject-1".to_string(),
        roleDefinition: RoleDefinition {
            displayName: "Member".to_string(),
            resource: RoleResource { displayName: format!("name-{}", resource_id) },
        },
    }
}

#[test]
fn group_query_or_joins_all_identifiers() {
    let groups = vec![assignment("a1", "g1"), assignment("a2", "g2")];
    assert_eq!(create_group_query(&groups), "$filter=id eq 'g1'or id eq 'g2'");
}

#[test]
fn group_query_of_one_identifier_has_no_separator() {
    let groups = vec![assignment("a1", "g1")];
    assert_eq!(create_group_query(&groups), "$filter=id eq 'g1'");
}

#[test]
fn discovery_urls_embed_the_subject() {
    assert_eq!(
        group_assignments_url("sub-1"),
        "https://api.azrbac.mspim.azure.com/api/v2/privilegedAccess/aadGroups/roleAssignments?$expand=roleDefinition($expand=resource)&$filter=(subject/id eq 'sub-1')+and+(assignmentState eq 'Eligible')"
    );
    assert_eq!(
        aad_role_assignments_url("sub-1"),
        "https://api.azrbac.mspim.azure.com/api/v2/privilegedAccess/aadroles/roleAssignments?$expand=roleDefinition($expand=resource)&$filter=(subject/id eq 'sub-1') and (assignmentState eq 'Eligible')"
    );
    assert_eq!(groups_url("$filter=x"), "https://graph.microsoft.com/v1.0/groups?$filter=x");
    assert_eq!(
        role_eligibility_url(),
        "https://management.azure.com/providers/Microsoft.Authorization/roleEligibilityScheduleInstances?api-version=2020-10-01&$filter=asTarget()"
    );
}

#[test]
fn request_urls_are_fixed_per_kind() {
    assert_eq!(
        group_request_url(),
        "https://api.azrbac.mspim.azure.com/api/v2/privilegedAccess/aadGroups/roleAssignmentRequests"
    );
    assert_eq!(
        aad_role_request_url(),
        "https://api.azrbac.mspim.azure.com/api/v2/privilegedAccess/aadroles/roleAssignmentRequests"
    );
    assert_eq!(
        role_activation_url("/subscriptions/x", "req-9"),
        "https://management.azure.com/subscriptions/x/providers/Microsoft.Authorization/roleAssignmentScheduleRequests/req-9?api-version=2020-10-01"
    );
}

#[test]
fn group_activation_body_is_a_one_shot_user_add() {
    let body = build_role_assignment(
        "incident".to_string(),
        "PT1H".to_string(),
        "gobj-1".to_string(),
        "ga-1".to_string(),
        "gdef-1".to_string(),
        "subject-1".to_string(),
    );
    assert_eq!(body.assignment_state, "Active");
    assert_eq!(body.linked_eligible_role_assignment_id, "ga-1");
    assert_eq!(body.reason, "incident");
    assert_eq!(body.resource_id, "gobj-1");
    assert_eq!(body.role_definition_id, "gdef-1");
    assert_eq!(body.schedule.duration, "PT1H");
    assert_eq!(body.schedule.schedule_type, "Once");
    assert_eq!(body.scoped_resource_id, "");
    assert_eq!(body.subject_id, "subject-1");
    assert_eq!(body.ticket_number, "");
    assert_eq!(body.ticket_system, "");
    assert_eq!(body.assignment_type, "UserAdd");
}

#[test]
fn resource_role_activation_body_is_a_self_activation() {
    let body = build_role_activation_request(
        "incident".to_string(),
        "PT30M".to_string(),
        "sdef-3".to_string(),
        "principal-1".to_string(),
    );
    assert_eq!(body.properties.role_definition_id, "sdef-3");
    assert_eq!(body.properties.principal_id, "principal-1");
    assert_eq!(body.properties.request_type, "SelfActivate");
    assert_eq!(body.properties.justification, "incident");
    assert_eq!(body.properties.schedule_info.expiration.expiry_type, "AfterDuration");
    assert_eq!(body.properties.schedule_info.expiration.duration, "PT30M");
}

#[test]
fn group_infos_join_descriptions_by_identifier() {
    let groups = vec![assignment("a1", "g1"), assignment("a2", "g2"), assignment("a3", "g3")];
    let extra = vec![
        GraphGroup {
            id: "g1".to_string(),
            description: Some("Payments".to_string()),
            display_name: "fallback-1".to_string(),
        },
        GraphGroup {
            id: "g2".to_string(),
            description: None,
            display_name: "fallback-2".to_string(),
        },
    ];
    let infos = build_group_infos(&groups, &extra);
    assert_eq!(infos.len(), 3);
    assert_eq!(infos[0].group_description.as_deref(), Some("Payments"));
    assert_eq!(infos[1].group_description.as_deref(), Some("fallback-2"));
    assert_eq!(infos[2].group_description, None);
    assert_eq!(infos[0].role_assignment_id, "a1");
    assert_eq!(infos[0].group_object_id, "g1");
    assert_eq!(infos[0].role_definition_id, "def-a1");
    assert_eq!(infos[0].role_definition_name, "Member");
    assert_eq!(infos[0].group_name, "name-g1");
}

#[test]
fn role_infos_flatten_the_expanded_properties() {
    let roles = vec![Role {
        properties: RoleProperties {
            role_definition_id: "sdef-3".to_string(),
            expanded_properties: ExpandedProperties {
                role_definition: RoleNamedResource {
                    id: "rd-1".to_string(),
                    display_name: "Contributor".to_string(),
                },
                scope: RoleNamedResource {
                    id: "/subscriptions/x".to_string(),
                    display_name: "subscription-x".to_string(),
                },
            },
        },
        name: "n".to_string(),
        id: "i".to_string(),
    }];
    let infos = build_role_infos(&roles);
    assert_eq!(infos.len(), 1);
    assert_eq!(infos[0].role_name, "Contributor");
    assert_eq!(infos[0].scope_name, "subscription-x");
    assert_eq!(infos[0].scope, "/subscriptions/x");
    assert_eq!(infos[0].role_definition_id, "sdef-3");
}

#[test]
fn aad_role_infos_are_skipped_without_groups() {
    let no_groups: Vec<AssignableGroup> = Vec::new();
    let roles = vec![assignment("r1", "tenant-1")];
    assert!(build_aad_role_infos(&no_groups, &roles).is_empty());
}

#[test]
fn aad_role_infos_map_each_discovered_role() {
    let groups = vec![assignment("a1", "g1")];
    let roles = vec![assignment("r1", "tenant-1")];
    let infos = build_aad_role_infos(&groups, &roles);
    assert_eq!(infos.len(), 1);
    assert_eq!(infos[0].role_assignment_id, "r1");
    assert_eq!(infos[0].tenant_id, "tenant-1");
    assert_eq!(infos[0].role_definition_id, "def-r1");
    assert_eq!(infos[0].role_definition_name, "Member");
    assert_eq!(infos[0].role_name, "name-tenant-1");
    assert_eq!(infos[0].role_description, None);
}
