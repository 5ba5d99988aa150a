//! Core of a personal-finance ledger: a query/aggregation engine over
//! transaction rows (filter, sort, paginate, and category-partitioned sums)
//! and a reimbursement reconciliation algorithm (open-window resolution and
//! carry allocation). Storage, rendering and the UI shell live outside this
//! crate and hand it plain values.

pub mod aggregate;
pub mod amounts;
pub mod category;
pub mod dates;
pub mod filter;
pub mod model;
pub mod order;
pub mod paging;
pub mod plan;
pub mod reimburse;
pub mod report;
pub mod search;
pub mod session;
pub mod text;
