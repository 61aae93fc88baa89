//! Write capabilities: mutation of a value reached through a handle, granted
//! to whoever holds a capability over that handle.
//!
//! [`WriteCell`] holds a value; [`Write`] wraps a handle (a unique reference,
//! a shared allocation, or a reference to another capability) and hands out
//! mutable access to what the handle reaches; [`Project`] flattens a
//! capability over a reference to a capability into one capability.

use vstd::prelude::*;

mod cell;
mod project;
mod write;

pub use cell::WriteCell;
pub use project::Project;
pub use write::Write;
