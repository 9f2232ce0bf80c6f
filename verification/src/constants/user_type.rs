//! The roles a user can have.

use vstd::prelude::*;

verus! {

/// May work with books and tickets.
pub const ADMIN: &'static str = "admin";

/// May, beyond that, read and change every user.
pub const SUPER_ADMIN: &'static str = "super_admin";

} // verus!
