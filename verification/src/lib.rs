//! Data-access layer for a restaurant ordering service: tables hold embedded
//! orders, orders reference catalog items, and callers page, filter and
//! aggregate these records.  The store-facing glue is unverified; everything
//! that decides or computes lives here, with contracts.

pub mod allocator;
pub mod clock;
pub mod collector;
pub mod errors;
pub mod filters;
pub mod items;
pub mod models;
pub mod orders;
pub mod pagination;
pub mod pipeline;
pub mod sort;
pub mod tables;
