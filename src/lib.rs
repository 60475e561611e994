//! Instance-local storage cells.
//!
//! A [`Local`] is a declaration that owns one storage slot in every instance
//! (an isolated execution context with its own [`LocalTable`]). The slot's
//! identity is drawn lazily, once, from a process-wide [`IdCounter`]; each
//! instance then holds at most one value for that identity.
pub mod laws;
pub mod local;
mod once;
pub mod slot_id;
pub mod table;

pub use local::Local;
pub use slot_id::{next_id, IdCounter};
pub use table::LocalTable;
