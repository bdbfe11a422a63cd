//! Graph access layer for a document-signing service: typed vertices and
//! edges encoded as string keys, neighbourhood queries over an edge table,
//! session reconciliation from an append-only edge log, and a renderer of
//! a vertex's one-hop neighbourhood.

pub mod text;
pub mod domain;
pub mod store;
pub mod session;
pub mod users;
pub mod ops;
pub mod render;
pub mod show;

pub use store::new_edge;
