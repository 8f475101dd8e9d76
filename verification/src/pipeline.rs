//! Aggregation pipeline builder for order listings that reach across the
//! table/order nesting: an optional table match, an optional in-place filter
//! of the embedded order array, then unwind, project and replace-root so
//! that each order surfaces as its own top-level document.

use vstd::prelude::*;

verus! {

/// One stage of the order-listing pipeline, in the shape the store executes.
#[derive(Clone, Debug, PartialEq)]
pub enum PipelineStage {
    /// Unconditional match: every table passes.
    MatchAll,
    /// Match restricting to tables whose `table_id` is in the list.
    MatchTableIds(Vec<i64>),
    /// Projection that filters the embedded `orders` array in place, keeping
    /// only orders whose item name equals any of the listed names.
    FilterOrdersByItemNames(Vec<String>),
    /// Flattens the (possibly filtered) `orders` array: one pipeline
    /// document per order.
    UnwindOrders,
    /// Projection keeping only the `orders` field.
    ProjectOrders,
    /// Promotes each order document to the pipeline's top-level document.
    ReplaceRootOrders,
}

/// Tail of the order-listing pipeline: the optional in-place order filter,
/// then the three reshaping stages in their fixed relative order.
pub fn list_all_orders_aggregate_helpers(item_names: Vec<String>) -> (stages: Vec<PipelineStage>)
    ensures
        stages@ =~= (if item_names@.len() == 0 {
            Seq::<PipelineStage>::empty()
        } else {
            seq![PipelineStage::FilterOrdersByItemNames(item_names)]
        }) + seq![
            PipelineStage::UnwindOrders,
            PipelineStage::ProjectOrders,
            PipelineStage::ReplaceRootOrders,
        ],
{
    let mut stages: Vec<PipelineStage> = Vec::new();
    if item_names.len() > 0 {
        stages.push(PipelineStage::FilterOrdersByItemNames(item_names));
    }
    stages.push(PipelineStage::UnwindOrders);
    stages.push(PipelineStage::ProjectOrders);
    stages.push(PipelineStage::ReplaceRootOrders);
    stages
}

/// The whole order-listing pipeline: the match stage (restricted exactly
/// when table identifiers were supplied), then the tail above.  The cook
/// status field of what comes out is not to be trusted: it is derived again
/// after collection.
pub fn build_order_listing_pipeline(table_ids: Vec<i64>, item_names: Vec<String>) -> (stages: Vec<
    PipelineStage,
>)
    ensures
        stages@ =~= (if table_ids@.len() == 0 {
            seq![PipelineStage::MatchAll]
        } else {
            seq![PipelineStage::MatchTableIds(table_ids)]
        }) + (if item_names@.len() == 0 {
            Seq::<PipelineStage>::empty()
        } else {
            seq![PipelineStage::FilterOrdersByItemNames(item_names)]
        }) + seq![
            PipelineStage::UnwindOrders,
            PipelineStage::ProjectOrders,
            PipelineStage::ReplaceRootOrders,
        ],
{
    let mut stages: Vec<PipelineStage> = Vec::new();
    if table_ids.len() == 0 {
        stages.push(PipelineStage::MatchAll);
    } else {
        stages.push(PipelineStage::MatchTableIds(table_ids));
    }
    let mut tail = list_all_orders_aggregate_helpers(item_names);
    stages.append(&mut tail);
    stages
}

} // verus!
