//! Pagination policy: an offset/limit descriptor and the in-memory slicing
//! rule applied to lists that were already fetched.

use vstd::prelude::*;

verus! {

/// Offset/limit pair as callers supply it.  `offset` counts records to skip;
/// `limit` caps how many records come back (`0` means none).
#[derive(Clone, Copy, Debug, PartialEq)]
pub struct Pagination {
    pub offset: u64,
    pub limit: i64,
}

/// Offset used when the caller supplies none.
pub fn default_offset() -> (r: u64)
    ensures
        r == 0,
{
    0
}

/// Limit used when the caller supplies none.
pub fn default_limit() -> (r: i64)
    ensures
        r == 10,
{
    10
}

/// The slice an offset/limit pair selects from an already-fetched list:
/// empty when the offset is past the end or the limit is zero, otherwise the
/// window starting at `offset` with at most `limit` records.
pub open spec fn spec_paginate<T>(items: Seq<T>, offset: int, limit: int) -> Seq<T> {
    if offset >= items.len() || limit == 0 {
        Seq::empty()
    } else if offset + limit > items.len() {
        items.subrange(offset, items.len() as int)
    } else {
        items.subrange(offset, offset + limit)
    }
}

/// In-memory slicing of an already-fetched order list, used downstream of
/// aggregation where skip/limit cannot be pushed into the pipeline.
pub fn handle_pagination(
    orders: Vec<crate::models::OrderResponse>,
    pagination: &Pagination,
) -> (r: Vec<crate::models::OrderResponse>)
    requires
        pagination.limit >= 0,
    ensures
        r@ == spec_paginate(orders@, pagination.offset as int, pagination.limit as int),
{
    let total: usize = orders.len();
    if pagination.offset >= total as u64 || pagination.limit == 0 {
        return Vec::new();
    }
    let offset: usize = pagination.offset as usize;
    let mut sliced = orders;
    let mut kept = sliced.split_off(offset);
    if (pagination.limit as u64) < (total - offset) as u64 {
        kept.truncate(pagination.limit as usize);
    }
    kept
}

/// Boundary law of the slicing rule: with a non-negative limit, the slice is
/// empty when the offset is past the end or the limit is zero, and otherwise
/// holds `limit` records, or all that remain past the offset if fewer.
pub proof fn lemma_pagination_boundary<T>(items: Seq<T>, offset: int, limit: int)
    requires
        0 <= offset,
        0 <= limit,
    ensures
        offset >= items.len() || limit == 0 ==> spec_paginate(items, offset, limit).len() == 0,
        offset < items.len() && limit != 0 ==> spec_paginate(items, offset, limit).len() == (
        if limit < items.len() - offset {
            limit
        } else {
            items.len() - offset
        }),
{
}

} // verus!
