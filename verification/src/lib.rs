//! A small operating-system abstraction layer exposing a portable file
//! open/close surface on top of a fixed-capacity handle registry.
//!
//! The core is the object table: opaque-handle allocation and validation,
//! the per-slot resource record lifecycle, and the facade that sequences
//! allocation, native-layer delegation, and rollback on failure. The native
//! filesystem itself is a collaborator: the facade receives what the native
//! open returned as a plain value and is verified for every such outcome.

pub mod backend;
pub mod error;
pub mod file_api;
pub mod laws;
pub mod object_table;
pub mod types;

pub use backend::{NativeError, NativeResult, OpenIntent, open_intent};
pub use error::{
    OS_ERR_INVALID_ID, OS_ERR_NO_FREE_IDS, OS_ERROR, OS_FS_ERR_NAME_TOO_LONG,
    OS_FS_ERR_PATH_INVALID, OS_FS_ERR_PATH_TOO_LONG, OS_INVALID_POINTER, OS_SUCCESS,
};
pub use file_api::{os_close, os_opencreate, os_translate_path};
pub use object_table::{ObjectTable, ObjectToken, ObjectType, StreamRecord};
pub use types::{
    OS_FILE_FLAG_CREATE, OS_FILE_FLAG_NONE, OS_FILE_FLAG_TRUNCATE, OS_READ_ONLY, OS_READ_WRITE,
    OS_WRITE_ONLY, OSAL_ID_UNDEFINED, OsalId,
};
