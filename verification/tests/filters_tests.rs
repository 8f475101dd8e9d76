use restaurant_app::filters::{default_vec_strings, ListTableFiltersBson, ListTableFiltersRequest};
use restaurant_app::items::{compile_items_query, ItemsQuery};

#[test]
fn absent_criteria_compile_to_no_clauses() {
    let request = ListTableFiltersRequest {
        table_id: None,
        order_id: None,
        item_name: None,
        item_names: default_vec_strings(),
    };
    let compiled = ListTableFiltersBson::from(request);
    assert!(compiled.table_id.is_none());
    assert!(compiled.order_id.is_none());
    assert!(compiled.item_name.is_none());
    assert!(compiled.item_names_strict.is_none());
}

#[test]
fn present_criteria_compile_to_their_clauses() {
    let request = ListTableFiltersRequest {
        table_id: Some(4),
        order_id: Some(9),
        item_name: Some("urg".to_string()),
        item_names: vec!["Burger".to_string(), "Soup".to_string()],
    };
    let compiled = ListTableFiltersBson::from(request);
    assert_eq!(compiled.table_id, Some(4));
    assert_eq!(compiled.order_id, Some(9));
    let rx = compiled.item_name.expect("fuzzy clause should be present");
    assert_eq!(rx.pattern, "urg");
    assert_eq!(rx.options, "i");
    let checks = compiled.item_names_strict.expect("strict clauses should be present");
    assert_eq!(checks.len(), 2);
    assert_eq!(checks[0].item_name, "Burger");
    assert_eq!(checks[1].item_name, "Soup");
}

#[test]
fn single_absent_fields_stay_absent() {
    let request = ListTableFiltersRequest {
        table_id: Some(4),
        order_id: None,
        item_name: None,
        item_names: Vec::new(),
    };
    let compiled = ListTableFiltersBson::from(request);
    assert_eq!(compiled.table_id, Some(4));
    assert!(compiled.order_id.is_none());
    assert!(compiled.item_name.is_none());
    assert!(compiled.item_names_strict.is_none());
}

#[test]
fn items_query_compiles_membership_clause() {
    assert_eq!(compile_items_query(Vec::new()), ItemsQuery::All);
    let q = compile_items_query(vec!["Burger".to_string()]);
    assert_eq!(q, ItemsQuery::NamesIn(vec!["Burger".to_string()]));
}
