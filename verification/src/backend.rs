//! The platform backend boundary: translation of abstract access modes and
//! flags into a native open intent, and handling of what the native open
//! primitive returned.
//!
//! The native filesystem lives outside this library. The caller performs
//! the native open with the [`OpenIntent`] computed here and hands the
//! outcome back as a [`NativeResult`]; everything that follows is verified
//! for every possible outcome.
use vstd::prelude::*;

use crate::error::{OS_ERROR, OS_FS_ERR_PATH_INVALID};
use crate::object_table::{ObjectTable, ObjectToken, RecordModel};
use crate::types::{OS_FILE_FLAG_CREATE, OS_FILE_FLAG_TRUNCATE, OS_READ_ONLY, OS_READ_WRITE,
    OS_WRITE_ONLY};

verus! {

/// Native open intent derived from the abstract flags and access mode.
#[derive(Debug, Clone, Copy, PartialEq, Eq, Structural)]
pub struct OpenIntent {
    pub read: bool,
    pub write: bool,
    pub create: bool,
    pub truncate: bool,
}

/// Category of a native open failure, as the native layer classifies it.
#[derive(Debug, Clone, Copy, PartialEq, Eq, Structural)]
pub enum NativeError {
    NotFound,
    PermissionDenied,
    Other,
}

/// What the native open primitive returned: an owned native handle, or a
/// failure category.
#[derive(Debug, Clone, Copy, PartialEq, Eq, Structural)]
pub enum NativeResult {
    Opened(u64),
    Failed(NativeError),
}

/// The accepted access modes: read-only, write-only, read-write.
pub open spec fn spec_valid_mode(access_mode: i32) -> bool {
    ||| access_mode == OS_READ_ONLY
    ||| access_mode == OS_WRITE_ONLY
    ||| access_mode == OS_READ_WRITE
}

/// Mode and flag translation: read-only maps to read intent, write-only to
/// write, read-write to both; the CREATE and TRUNCATE bits map to the
/// corresponding native intents.
pub open spec fn spec_open_intent(flags: i32, access_mode: i32) -> OpenIntent {
    OpenIntent {
        read: access_mode == OS_READ_ONLY || access_mode == OS_READ_WRITE,
        write: access_mode == OS_WRITE_ONLY || access_mode == OS_READ_WRITE,
        create: flags & OS_FILE_FLAG_CREATE != 0,
        truncate: flags & OS_FILE_FLAG_TRUNCATE != 0,
    }
}

/// Translate abstract access mode and flag bits into the native open
/// intent; an unrecognized access mode is a generic error.
pub fn open_intent(flags: i32, access_mode: i32) -> (r: Result<OpenIntent, i32>)
    ensures
        spec_valid_mode(access_mode) ==> r == Ok::<OpenIntent, i32>(
            spec_open_intent(flags, access_mode),
        ),
        !spec_valid_mode(access_mode) ==> r == Err::<OpenIntent, i32>(OS_ERROR),
{
    let mut read = false;
    let mut write = false;
    if access_mode == OS_READ_ONLY {
        read = true;
    } else if access_mode == OS_WRITE_ONLY {
        write = true;
    } else if access_mode == OS_READ_WRITE {
        read = true;
        write = true;
    } else {
        return Err(OS_ERROR);
    }
    Ok(OpenIntent {
        read,
        write,
        create: flags & OS_FILE_FLAG_CREATE != 0,
        truncate: flags & OS_FILE_FLAG_TRUNCATE != 0,
    })
}

/// Mapping of native error categories into the status taxonomy: "not
/// found" is a path error, everything else a generic error. Never success.
pub open spec fn spec_map_native_error(e: NativeError) -> i32 {
    match e {
        NativeError::NotFound => OS_FS_ERR_PATH_INVALID,
        NativeError::PermissionDenied => OS_ERROR,
        NativeError::Other => OS_ERROR,
    }
}

/// Finalize a native open outcome against the record a token addresses:
/// on success the native handle is stored into the slot, on failure the
/// native error category is mapped into the status taxonomy and the table
/// is left untouched — no partial write to the record occurs.
pub fn file_open_impl(table: &mut ObjectTable, token: &ObjectToken, native: NativeResult) -> (r:
    Result<(), i32>)
    requires
        (token.obj_idx as int) < old(table)@.len(),
        old(table)@[token.obj_idx as int].in_use,
    ensures
        match native {
            NativeResult::Opened(h) => r == Ok::<(), i32>(())
                && final(table)@ == old(table)@.update(
                    token.obj_idx as int,
                    (RecordModel {
                        native_handle: Some(h),
                        ..old(table)@[token.obj_idx as int]
                    }),
                ),
            NativeResult::Failed(e) => r == Err::<(), i32>(spec_map_native_error(e))
                && final(table)@ == old(table)@,
        },
        old(table).wf() ==> final(table).wf(),
{
    match native {
        NativeResult::Opened(handle) => {
            table.set_stream_handle(token, handle);
            Ok(())
        },
        NativeResult::Failed(e) => {
            match e {
                NativeError::NotFound => Err(OS_FS_ERR_PATH_INVALID),
                NativeError::PermissionDenied => Err(OS_ERROR),
                NativeError::Other => Err(OS_ERROR),
            }
        },
    }
}

} // verus!
