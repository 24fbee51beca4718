//! Segment selectors for the x86 descriptor tables: the 16-bit encoding of
//! a table index, a table indicator and a requested privilege level, with
//! accessors, flag predicates and a diagnostic rendering.
pub mod privilege;
pub mod render;
pub mod selector;

pub use privilege::PrivilegeLevel;
pub use selector::{SegmentSelector, TableIndicator};
