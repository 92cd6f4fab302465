//! Ranking of a retailer's drinks by alcohol per unit of money, and the
//! refresh cycle that keeps a rendered page of that ranking current.
//!
//! The crate holds the decisions only: which products are listed, in which
//! group, in what order, and when the page is replaced. Fetching the catalog,
//! rendering markup and serving requests belong to the program around it.

pub mod cache;
pub mod category;
pub mod listing;
pub mod product;
pub mod ranker;
pub mod scheduler;
pub mod text;
