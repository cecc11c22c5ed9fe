//! Status codes returned by every operation of this layer.
//!
//! Zero means success; every failure is a distinct negative code.
use vstd::prelude::*;

verus! {

pub const OS_SUCCESS: i32 = 0;
pub const OS_ERROR: i32 = -1;
pub const OS_INVALID_POINTER: i32 = -2;
pub const OS_ERR_NO_FREE_IDS: i32 = -3;
pub const OS_FS_ERR_PATH_TOO_LONG: i32 = -4;
pub const OS_FS_ERR_PATH_INVALID: i32 = -5;
pub const OS_FS_ERR_NAME_TOO_LONG: i32 = -6;
pub const OS_ERR_INVALID_ID: i32 = -7;

} // verus!
