//! Filter compiler for table listings: optional, composable criteria become
//! a query document model with strict omission semantics — an absent field
//! contributes no clause at all, it never becomes a null or empty clause.

use vstd::prelude::*;
use crate::models::Table;

verus! {

/// Filter criteria as callers supply them.  Every field is independently
/// optional; an empty `item_names` list means the constraint is absent.
#[derive(Clone, Debug, PartialEq)]
pub struct ListTableFiltersRequest {
    pub table_id: Option<i64>,
    pub order_id: Option<i64>,
    pub item_name: Option<String>,
    pub item_names: Vec<String>,
}

/// Item-name list used when the caller supplies none.
pub fn default_vec_strings() -> (r: Vec<String>)
    ensures
        r@ =~= Seq::<String>::empty(),
{
    Vec::new()
}

/// Case-insensitive substring clause, modeled after the store's regular
/// expression value: the pattern to search for and its option letters.
#[derive(Clone, Debug, PartialEq)]
pub struct ItemNameFuzzyRegex {
    pub pattern: String,
    pub options: String,
}

/// One strict equality clause on the nested item-name field.
#[derive(Clone, Debug, PartialEq)]
pub struct ItemNameStrictCheck {
    pub item_name: String,
}

/// Compiled query document for table listings.  A `None` field emits no
/// clause; present clauses combine with implicit AND.
#[derive(Clone, Debug, PartialEq)]
pub struct ListTableFiltersBson {
    /// Equality clause on the table identifier.
    pub table_id: Option<i64>,
    /// Equality clause on the nested order identifier.
    pub order_id: Option<i64>,
    /// Case-insensitive substring clause on the nested item name.
    pub item_name: Option<ItemNameFuzzyRegex>,
    /// Conjunction of per-name equality clauses on the nested item name:
    /// every listed name must appear somewhere in the order list.
    pub item_names_strict: Option<Vec<ItemNameStrictCheck>>,
}

/// ASCII-lowercased character, the folding the `i` option performs on the
/// catalog's names.
pub open spec fn spec_lower_char(c: char) -> char {
    if 'A' <= c && c <= 'Z' {
        ((c as u8) + 32) as char
    } else {
        c
    }
}

/// ASCII-lowercased character sequence.
pub open spec fn spec_lower(s: Seq<char>) -> Seq<char> {
    s.map_values(|c: char| spec_lower_char(c))
}

/// `needle` occurs in `hay` once both are lowercased.
pub open spec fn spec_ci_substring(needle: Seq<char>, hay: Seq<char>) -> bool {
    exists|k: int|
        0 <= k && k + needle.len() <= hay.len() && #[trigger] spec_lower(
            hay.subrange(k, k + needle.len()),
        ) =~= spec_lower(needle)
}

/// What one compiled filter means on one stored table, clause by clause.
pub open spec fn spec_table_matches(f: ListTableFiltersBson, t: Table) -> bool {
    &&& match f.table_id {
        Some(id) => t.table_id == id,
        None => true,
    }
    &&& match f.order_id {
        Some(oid) => exists|i: int| 0 <= i < t.orders@.len() && t.orders@[i].order_id == oid,
        None => true,
    }
    &&& match f.item_name {
        Some(rx) => exists|i: int|
            0 <= i < t.orders@.len() && spec_ci_substring(
                rx.pattern@,
                t.orders@[i].item.item_name@,
            ),
        None => true,
    }
    &&& match f.item_names_strict {
        Some(checks) => forall|c: int|
            0 <= c < checks@.len() ==> exists|i: int|
                0 <= i < t.orders@.len() && t.orders@[i].item.item_name@ == (
                #[trigger] checks@[c]).item_name@,
        None => true,
    }
}

impl ListTableFiltersBson {
    /// Compiles the caller's criteria.  Each clause is present exactly when
    /// its criterion is, with the fuzzy clause carrying the
    /// case-insensitivity option and the strict list carrying every
    /// requested name in order.
    pub fn from(filters: ListTableFiltersRequest) -> (r: ListTableFiltersBson)
        ensures
            r.table_id == filters.table_id,
            r.order_id == filters.order_id,
            r.item_name is Some <==> filters.item_name is Some,
            match (filters.item_name, r.item_name) {
                (Some(name), Some(rx)) => rx.pattern@ == name@ && rx.options@ == "i"@,
                (None, None) => true,
                _ => false,
            },
            r.item_names_strict is None <==> filters.item_names@.len() == 0,
            match r.item_names_strict {
                Some(checks) => checks@.len() == filters.item_names@.len() && forall|i: int|
                    0 <= i < checks@.len() ==> checks@[i].item_name@ == filters.item_names@[i]@,
                None => true,
            },
    {
        let item_name = match filters.item_name {
            Some(name) => Some(
                ItemNameFuzzyRegex { pattern: name, options: "i".to_string() },
            ),
            None => None,
        };
        let item_names_strict = if filters.item_names.len() == 0 {
            None
        } else {
            let mut checks: Vec<ItemNameStrictCheck> = Vec::new();
            for i in 0..filters.item_names.len()
                invariant
                    checks@.len() == i,
                    forall|j: int|
                        0 <= j < i ==> checks@[j].item_name@ == filters.item_names@[j]@,
            {
                checks.push(ItemNameStrictCheck { item_name: filters.item_names[i].clone() });
            }
            Some(checks)
        };
        ListTableFiltersBson {
            table_id: filters.table_id,
            order_id: filters.order_id,
            item_name,
            item_names_strict,
        }
    }
}

/// Omission law of the filter compiler: a query without clauses — what a
/// request with every criterion absent compiles to — matches every stored
/// table.
pub proof fn lemma_filter_omission(f: ListTableFiltersBson, t: Table)
    requires
        f.table_id is None,
        f.order_id is None,
        f.item_name is None,
        f.item_names_strict is None,
    ensures
        spec_table_matches(f, t),
{
}

} // verus!
