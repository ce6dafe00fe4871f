use pimple::catalog::{group, PimKind};
use pimple::group::{GroupInfo, GroupPim};
use pimple::session::Catalog;
use pimple::text::usize_to_string;

fn item(description: &str, name: &str) -> GroupPim {
    GroupPim::new(GroupInfo {
        role_assignment_id: format!("assignment-{}", name),
        group_object_id: format!("object-{}", name),
        role_definition_id: format!("definition-{}", name),
        role_definition_name: "Member".to_string(),
        group_name: name.to_string(),
        group_description: Some(description.to_string()),
    })
}

#[test]
fn grouping_clusters_adjacent_equal_keys_only() {
    let items = vec![item("A", "g1"), item("A", "g2"), item("B", "g3"), item("A", "g4")];
    let runs = group(&items);
    assert_eq!(runs, vec![(0, 2), (2, 3), (3, 4)]);
}

#[test]
fn grouping_of_empty_list_is_empty() {
    let items: Vec<GroupPim> = Vec::new();
    let runs = group(&items);
    assert!(runs.is_empty());
}

#[test]
fn grouping_keeps_single_runs_apart() {
    let items = vec![item("A", "g1"), item("B", "g2"), item("A", "g3")];
    let runs = group(&items);
    assert_eq!(runs, vec![(0, 1), (1, 2), (2, 3)]);
}

#[test]
fn decimal_rendering_is_exact() {
    assert_eq!(usize_to_string(0), "0");
    assert_eq!(usize_to_string(7), "7");
    assert_eq!(usize_to_string(57), "57");
    assert_eq!(usize_to_string(120), "120");
}

#[test]
fn render_prints_cluster_label_once_then_indexed_members() {
    let catalog = Catalog {
        groups: vec![item("Payments team", "g1"), item("Payments team", "g2")],
        aad_roles: Vec::new(),
        roles: Vec::new(),
    };
    let (lines, index) = catalog.render();
    assert_eq!(
        lines,
        vec![
            "Payments team".to_string(),
            "1.\tg1 (Member)".to_string(),
            "2.\tg2 (Member)".to_string(),
        ]
    );
    assert_eq!(index, vec![(PimKind::Group, 0), (PimKind::Group, 1)]);
}

#[test]
fn render_separates_non_adjacent_equal_keys() {
    let catalog = Catalog {
        groups: vec![item("A", "g1"), item("B", "g2"), item("A", "g3")],
        aad_roles: Vec::new(),
        roles: Vec::new(),
    };
    let (lines, _) = catalog.render();
    assert_eq!(
        lines,
        vec![
            "A".to_string(),
            "1.\tg1 (Member)".to_string(),
            "B".to_string(),
            "2.\tg2 (Member)".to_string(),
            "A".to_string(),
            "3.\tg3 (Member)".to_string(),
        ]
    );
}
