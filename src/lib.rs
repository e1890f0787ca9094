//! Decision logic for a lifetime-scoped smart-card session stack: a driver
//! context, the readers it enumerates and the cards connected through them.
//!
//! The foreign handles themselves never enter this crate. Callers hand in the
//! status code and null-ness of each foreign call, and the crate decides
//! whether a resource was acquired, which error results, how a reader
//! snapshot is collected, how the context flags change, and when a release
//! action is due.

mod error;
mod acquire;
mod flags;
mod readers;
mod release;

pub use error::Error;
pub use acquire::{acquired, handle_acquired, open_card, open_context, reader_at};
pub use flags::{lemma_set_flag_idempotent, set_flag};
pub use readers::{collect_readers, lookup_may_succeed};
pub use release::Release;
