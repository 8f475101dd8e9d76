use restaurant_app::models::{CookStatus, ItemResponse, OrderResponse};
use restaurant_app::pagination::{default_limit, default_offset, handle_pagination, Pagination};

fn order_response(order_id: i64) -> OrderResponse {
    OrderResponse {
        order_id,
        table_id: 1,
        ordered_time: 0,
        cook_status: CookStatus::InProgress,
        item: ItemResponse { item_name: "Burger".to_string(), cook_time: 5 },
    }
}

fn ids(orders: &[OrderResponse]) -> Vec<i64> {
    orders.iter().map(|o| o.order_id).collect()
}

#[test]
fn pagination_defaults() {
    assert_eq!(default_offset(), 0);
    assert_eq!(default_limit(), 10);
}

#[test]
fn pagination_middle_window() {
    let orders: Vec<OrderResponse> = (1..=6).map(order_response).collect();
    let sliced = handle_pagination(orders, &Pagination { offset: 2, limit: 3 });
    assert_eq!(ids(&sliced), vec![3, 4, 5]);
}

#[test]
fn pagination_window_past_end_is_clamped() {
    let orders: Vec<OrderResponse> = (1..=4).map(order_response).collect();
    let sliced = handle_pagination(orders, &Pagination { offset: 2, limit: 10 });
    assert_eq!(ids(&sliced), vec![3, 4]);
}

#[test]
fn pagination_offset_at_length_is_empty() {
    let orders: Vec<OrderResponse> = (1..=4).map(order_response).collect();
    let sliced = handle_pagination(orders, &Pagination { offset: 4, limit: 10 });
    assert!(sliced.is_empty());
}

#[test]
fn pagination_offset_past_length_is_empty() {
    let orders: Vec<OrderResponse> = (1..=4).map(order_response).collect();
    let sliced = handle_pagination(orders, &Pagination { offset: 100, limit: 10 });
    assert!(sliced.is_empty());
}

#[test]
fn pagination_zero_limit_is_empty() {
    let orders: Vec<OrderResponse> = (1..=4).map(order_response).collect();
    let sliced = handle_pagination(orders, &Pagination { offset: 0, limit: 0 });
    assert!(sliced.is_empty());
}

#[test]
fn pagination_length_formula_holds() {
    // Length is min(limit, n - offset) when offset < n, else zero.
    for n in 0..5usize {
        for offset in 0..7u64 {
            for limit in 0..7i64 {
                let orders: Vec<OrderResponse> = (1..=n as i64).map(order_response).collect();
                let sliced = handle_pagination(orders, &Pagination { offset, limit });
                let expected = if offset >= n as u64 || limit == 0 {
                    0
                } else {
                    (limit as u64).min(n as u64 - offset)
                };
                assert_eq!(sliced.len() as u64, expected);
            }
        }
    }
}

#[test]
fn pagination_empty_list_is_empty() {
    let sliced = handle_pagination(Vec::new(), &Pagination { offset: 0, limit: 10 });
    assert!(sliced.is_empty());
}
