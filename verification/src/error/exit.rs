//! Stable process exit codes. Keeping these fixed makes `molt` scriptable.

use vstd::prelude::*;

verus! {

/// Everything went fine.
pub const OK: i32 = 0;

/// A generic, unexpected error occurred.
pub const GENERIC: i32 = 1;

/// The user passed invalid arguments.
pub const USAGE: i32 = 2;

/// No project / environment could be resolved for the request.
pub const NOT_FOUND: i32 = 3;

/// A required backend (uv / venv) was unavailable.
pub const BACKEND: i32 = 4;

} // verus!
