//! File-related type definitions: access modes, open flags, and the
//! external handle type.
use vstd::prelude::*;

verus! {

/// File access modes.
pub const OS_READ_ONLY: i32 = 0;
pub const OS_WRITE_ONLY: i32 = 1;
pub const OS_READ_WRITE: i32 = 2;

/// File open flags (a bitmask).
pub const OS_FILE_FLAG_NONE: i32 = 0x00;
pub const OS_FILE_FLAG_CREATE: i32 = 0x01;
pub const OS_FILE_FLAG_TRUNCATE: i32 = 0x02;

/// The opaque handle exposed to callers: the only externally observable
/// identity of an open resource.
pub type OsalId = u32;

/// Sentinel value of a handle that has not been assigned.
/// No successful open ever returns it (valid handles carry a nonzero
/// generation field).
pub const OSAL_ID_UNDEFINED: OsalId = 0;

} // verus!
