//! A ledger entry: an income or an expense, built step by step, with
//! identifiers drawn from an owned counter and a signed value for totals.

mod ids;
mod item;
mod sum;

pub use ids::{get_id, IdGenerator};
pub use item::{default_date, edits_keep_last_values, Edit, Entry, Item, ItemView};
pub use sum::{empty_is_identity, extract_follows_kind, running_total, signed, Sum};
