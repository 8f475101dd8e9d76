use restaurant_app::collector::RawRecord;
use restaurant_app::items::{
    empty_vec_of_strings, items_to_responses, list_items, list_items_response, should_seed_items,
    ListItemsRequest,
};
use restaurant_app::models::Item;
use restaurant_app::pagination::Pagination;

fn catalog_item(name: &str, cook_time: i64) -> Item {
    Item { item_name: name.to_string(), cook_time }
}

#[test]
fn empty_names_default_is_empty() {
    assert!(empty_vec_of_strings().is_empty());
}

#[test]
fn catalog_is_seeded_only_while_empty() {
    assert!(should_seed_items(0));
    assert!(!should_seed_items(1));
    assert!(!should_seed_items(42));
}

#[test]
fn items_map_to_their_responses() {
    let items = vec![catalog_item("Burger", 5), catalog_item("Soup", 3)];
    let rs = items_to_responses(&items);
    assert_eq!(rs.len(), 2);
    assert_eq!(rs[0].item_name, "Burger");
    assert_eq!(rs[0].cook_time, 5);
    assert_eq!(rs[1].item_name, "Soup");
    assert_eq!(rs[1].cook_time, 3);
}

#[test]
fn list_items_accounts_for_bad_records() {
    let drained = Ok(vec![
        RawRecord { parsed: Some(catalog_item("Burger", 5)), record_id: None },
        RawRecord { parsed: None, record_id: Some("iid-3".to_string()) },
        RawRecord { parsed: None, record_id: None },
    ]);
    let res = list_items(drained, 9).expect("collection should succeed");
    assert_eq!(res.count, 9);
    assert_eq!(res.dropped, 2);
    assert_eq!(res.failed_items, Some(vec!["iid-3".to_string()]));
    assert_eq!(res.items.len(), 1);
    assert_eq!(res.items[0].item_name, "Burger");
}

#[test]
fn list_items_stream_failure_is_fatal() {
    let e = list_items(Err(()), 9).expect_err("a failed stream must fail the call");
    assert_eq!(e.status_code, 500);
    assert_eq!(e.error.error_type, "BsonDeserializeError");
}

#[test]
fn list_items_response_echoes_everything() {
    let drained = Ok(vec![RawRecord { parsed: Some(catalog_item("Burger", 5)), record_id: None }]);
    let results = list_items(drained, 3).expect("collection should succeed");
    let filters = ListItemsRequest { item_names: vec!["Burger".to_string()] };
    let r = list_items_response(results, filters, &Pagination { offset: 2, limit: 10 });
    assert_eq!(r.items.len(), 1);
    assert_eq!(r.pagination.total, 3);
    assert_eq!(r.pagination.limit, 10);
    assert_eq!(r.pagination.offset, 2);
    assert_eq!(r.filters.item_names, vec!["Burger".to_string()]);
    assert!(r.errors.failed_items_ids.is_none());
    assert_eq!(r.errors.failed_items_count, 0);
}
