use pimple::aad_roles::{AadRoleInfo, AadRolePim};
use pimple::catalog::ActivationCall;
use pimple::group::{GroupInfo, GroupPim};
use pimple::role::{RoleInfo, RolePim};
use pimple::session::{parse_selection, plan_activations, warmup_resources, Catalog};

fn group_item() -> GroupPim {
    GroupPim::new(GroupInfo {
        role_assignment_id: "ga-1".to_string(),
        group_object_id: "gobj-1".to_string(),
        role_definition_id: "gdef-1".to_string(),
        role_definition_name: "Member".to_string(),
        group_name: "G".to_string(),
        group_description: Some("Group cluster".to_string()),
    })
}

fn directory_role_item() -> AadRolePim {
    AadRolePim::new(AadRoleInfo {
        role_assignment_id: "ra-2".to_string(),
        tenant_id: "tenant-2".to_string(),
        role_definition_id: "rdef-2".to_string(),
        role_definition_name: "Reader".to_string(),
        role_name: "R".to_string(),
        role_description: None,
    })
}

fn resource_role_item() -> RolePim {
    RolePim::new(RoleInfo {
        role_name: "Contributor".to_string(),
        scope_name: "subscription-x".to_string(),
        scope: "/subscriptions/x".to_string(),
        role_definition_id: "sdef-3".to_string(),
    })
}

#[test]
fn end_to_end_selection_carries_reason_and_duration_to_both_calls() {
    let catalog = Catalog {
        groups: vec![group_item()],
        aad_roles: vec![directory_role_item()],
        roles: Vec::new(),
    };
    let (lines, index) = catalog.render();
    assert_eq!(index.len(), 2);
    assert_eq!(lines.len(), 4);
    let selected = parse_selection("1,2", catalog.len()).unwrap();
    assert_eq!(selected, vec![1, 2]);
    let calls = plan_activations(&catalog, &selected, "incident", "PT1H");
    assert_eq!(calls.len(), 2);
    match &calls[0] {
        ActivationCall::Group { reason, duration, group_id, role_assignment_id, role_definition_id } => {
            assert_eq!(reason, "incident");
            assert_eq!(duration, "PT1H");
            assert_eq!(group_id, "gobj-1");
            assert_eq!(role_assignment_id, "ga-1");
            assert_eq!(role_definition_id, "gdef-1");
        }
        _ => panic!("first selection must activate the group item"),
    }
    match &calls[1] {
        ActivationCall::AadRole { reason, duration, tenant_id, role_assignment_id, role_definition_id } => {
            assert_eq!(reason, "incident");
            assert_eq!(duration, "PT1H");
            assert_eq!(tenant_id, "tenant-2");
            assert_eq!(role_assignment_id, "ra-2");
            assert_eq!(role_definition_id, "rdef-2");
        }
        _ => panic!("second selection must activate the directory-role item"),
    }
}

#[test]
fn every_selected_item_gets_its_own_request_independently() {
    let catalog = Catalog {
        groups: vec![group_item()],
        aad_roles: vec![directory_role_item()],
        roles: Vec::new(),
    };
    let selected = parse_selection("1,2", catalog.len()).unwrap();
    let calls = plan_activations(&catalog, &selected, "incident", "PT1H");
    // Simulate item 2's activation failing at the service: item 1's request
    // was still built with its own parameters, and its outcome is its own.
    let outcomes: Vec<Result<String, String>> = vec![
        Ok("raw-result-1".to_string()),
        Err("service refused".to_string()),
    ];
    assert_eq!(calls.len(), outcomes.len());
    match &calls[0] {
        ActivationCall::Group { group_id, .. } => assert_eq!(group_id, "gobj-1"),
        _ => panic!("first call must stay the group activation"),
    }
    assert_eq!(outcomes[0].as_ref().unwrap(), "raw-result-1");
}

#[test]
fn warmup_names_each_selected_items_audience() {
    let catalog = Catalog {
        groups: vec![group_item()],
        aad_roles: vec![directory_role_item()],
        roles: vec![resource_role_item()],
    };
    let selected = parse_selection("1,3", catalog.len()).unwrap();
    let audiences = warmup_resources(&catalog, &selected);
    assert_eq!(
        audiences,
        vec!["https://api.azrbac.mspim.azure.com", "https://management.azure.com"]
    );
}

#[test]
fn resource_role_activation_draws_a_fresh_request_identifier() {
    let catalog = Catalog {
        groups: Vec::new(),
        aad_roles: Vec::new(),
        roles: vec![resource_role_item()],
    };
    let selected = parse_selection("1", catalog.len()).unwrap();
    let calls = plan_activations(&catalog, &selected, "why", "PT30M");
    match &calls[0] {
        ActivationCall::Role { reason, duration, scope, role_definition_id, role_assignment_id } => {
            assert_eq!(reason, "why");
            assert_eq!(duration, "PT30M");
            assert_eq!(scope, "/subscriptions/x");
            assert_eq!(role_definition_id, "sdef-3");
            assert_eq!(role_assignment_id.len(), 36);
        }
        _ => panic!("the only item is a resource role"),
    }
}

#[test]
fn catalog_indices_span_kinds_in_fixed_order() {
    let catalog = Catalog {
        groups: vec![group_item()],
        aad_roles: vec![directory_role_item()],
        roles: vec![resource_role_item()],
    };
    assert_eq!(catalog.len(), 3);
    let calls = plan_activations(&catalog, &vec![3], "r", "d");
    assert!(matches!(calls[0], ActivationCall::Role { .. }));
    let calls = plan_activations(&catalog, &vec![2], "r", "d");
    assert!(matches!(calls[0], ActivationCall::AadRole { .. }));
}
