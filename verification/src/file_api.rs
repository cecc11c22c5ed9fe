//! The file facade: the public open/close operations over the object
//! table, and path translation.
//!
//! Both operations are specified against a functional model, [`spec_open`]
//! and [`spec_close`], which pins down the status code, the handle, and
//! the whole table state for every input and every native outcome.
use vstd::prelude::*;

use crate::backend::{NativeResult, file_open_impl, spec_map_native_error, spec_valid_mode};
use crate::error::{OS_ERR_INVALID_ID, OS_ERR_NO_FREE_IDS, OS_ERROR, OS_FS_ERR_PATH_INVALID,
    OS_FS_ERR_PATH_TOO_LONG, OS_INVALID_POINTER, OS_SUCCESS};
use crate::object_table::{ObjectTable, ObjectType, RecordModel, free_record, first_free, has_free,
    id_index, id_valid, lemma_first_free, next_generation, spec_encode_id};
use crate::types::{OS_READ_ONLY, OS_READ_WRITE, OS_WRITE_ONLY, OSAL_ID_UNDEFINED, OsalId};

verus! {

/// Longest accepted logical path, in bytes; the bound is exclusive at this
/// value (a path of 263 bytes passes, one of 264 does not).
pub const OS_MAX_LOCAL_PATH_LEN: usize = 264;

/// Path translation: a path of maximal length or above is rejected as too
/// long, an empty one as invalid; any other maps to itself (the identity
/// stands in for future mount-table logic).
pub open spec fn spec_translate_path(path: &str) -> Result<Seq<char>, i32> {
    if path.len() >= OS_MAX_LOCAL_PATH_LEN {
        Err(OS_FS_ERR_PATH_TOO_LONG)
    } else if path.len() == 0 {
        Err(OS_FS_ERR_PATH_INVALID)
    } else {
        Ok(path@)
    }
}

/// Map a logical path to a physical path, validating length and
/// emptiness.
pub fn os_translate_path(path: &str) -> (r: Result<String, i32>)
    ensures
        match r {
            Ok(p) => spec_translate_path(path) == Ok::<Seq<char>, i32>(p@),
            Err(e) => spec_translate_path(path) == Err::<Seq<char>, i32>(e),
        },
{
    if path.len() >= OS_MAX_LOCAL_PATH_LEN {
        return Err(OS_FS_ERR_PATH_TOO_LONG);
    }
    if path.len() == 0 {
        return Err(OS_FS_ERR_PATH_INVALID);
    }
    Ok(path.to_owned())
}

/// The functional model of `os_opencreate`: from a table state, the
/// incoming handle value, the call's inputs, and the native open outcome,
/// the status code, the outgoing handle value, and the new table state.
///
/// An empty path is rejected before the output handle is touched; every
/// later rejection leaves the handle at the undefined sentinel. When the
/// inputs pass validation and a slot is free, the lowest free slot is
/// taken with a bumped generation: a successful native open commits it
/// (name recorded, handle owned), a failed one rolls it back to free, so
/// the pattern of slots in use is exactly that of the initial state.
pub open spec fn spec_open(
    s: Seq<RecordModel>,
    fd0: u32,
    path: &str,
    flags: i32,
    access_mode: i32,
    native: NativeResult,
) -> (i32, u32, Seq<RecordModel>) {
    if path.len() == 0 {
        (OS_INVALID_POINTER, fd0, s)
    } else if !spec_valid_mode(access_mode) {
        (OS_ERROR, OSAL_ID_UNDEFINED, s)
    } else if path.len() >= OS_MAX_LOCAL_PATH_LEN {
        (OS_FS_ERR_PATH_TOO_LONG, OSAL_ID_UNDEFINED, s)
    } else if !has_free(s) {
        (OS_ERR_NO_FREE_IDS, OSAL_ID_UNDEFINED, s)
    } else {
        let i = first_free(s);
        let g = next_generation(s[i].generation);
        match native {
            NativeResult::Opened(h) => (
                OS_SUCCESS,
                spec_encode_id(0, g, i as u32),
                s.update(
                    i,
                    RecordModel { name: path@, in_use: true, generation: g, native_handle: Some(h) },
                ),
            ),
            NativeResult::Failed(e) => (
                spec_map_native_error(e),
                OSAL_ID_UNDEFINED,
                s.update(i, free_record(g)),
            ),
        }
    }
}

/// The functional model of `os_close`: a valid handle closes with success
/// and its slot is fully reset (keeping the generation counter); any other
/// handle is rejected with the identity error and nothing changes.
pub open spec fn spec_close(s: Seq<RecordModel>, id: u32) -> (i32, Seq<RecordModel>) {
    if id_valid(s, id) {
        (
            OS_SUCCESS,
            s.update(id_index(id) as int, free_record(s[id_index(id) as int].generation)),
        )
    } else {
        (OS_ERR_INVALID_ID, s)
    }
}

/// Open or create a file.
///
/// Validates the inputs, translates the path, allocates the lowest free
/// slot, and finalizes the native outcome handed in by the caller: on
/// success the slot owns the native handle and `filedes` carries the
/// issued external ID; on failure the slot is rolled back, the table's
/// pattern of slots in use is as before the call, and `filedes` is the
/// undefined sentinel (or untouched, when the path was empty).
///
/// The caller performs the native open itself, with the intent computed
/// by [`crate::backend::open_intent`] on the translated path, and hands
/// the outcome in as `native`; this function is verified for every
/// outcome value.
pub fn os_opencreate(
    table: &mut ObjectTable,
    filedes: &mut OsalId,
    path: &str,
    flags: i32,
    access_mode: i32,
    native: NativeResult,
) -> (status: i32)
    requires
        old(table).wf(),
    ensures
        final(table).wf(),
        status == spec_open(old(table)@, *old(filedes), path, flags, access_mode, native).0,
        *final(filedes) == spec_open(old(table)@, *old(filedes), path, flags, access_mode, native).1,
        final(table)@ == spec_open(old(table)@, *old(filedes), path, flags, access_mode, native).2,
        status == OS_SUCCESS <==> (0 < path.len() < OS_MAX_LOCAL_PATH_LEN
            && spec_valid_mode(access_mode) && has_free(old(table)@) && native is Opened),
        status == OS_SUCCESS ==> *final(filedes) != OSAL_ID_UNDEFINED,
{
    if path.len() == 0 {
        return OS_INVALID_POINTER;
    }

    *filedes = OSAL_ID_UNDEFINED;

    if access_mode != OS_WRITE_ONLY && access_mode != OS_READ_ONLY && access_mode != OS_READ_WRITE {
        return OS_ERROR;
    }

    // Translate the path; the physical path is what the caller's native
    // open acts on, so only the validation matters here.
    match os_translate_path(path) {
        Ok(_) => (),
        Err(e) => {
            return e;
        },
    }

    let token = match table.allocate_id(ObjectType::Stream, None) {
        Ok(t) => t,
        Err(e) => {
            return e;
        },
    };
    proof {
        lemma_first_free(old(table)@);
    }

    table.set_stream_name(&token, path);

    let impl_result = file_open_impl(table, &token, native);

    match impl_result {
        Ok(_) => {
            *filedes = token.to_osal_id();
            proof {
                let i = first_free(old(table)@);
                let g = next_generation(old(table)@[i].generation);
                assert(table@ =~= old(table)@.update(
                    i,
                    RecordModel {
                        name: path@,
                        in_use: true,
                        generation: g,
                        native_handle: Some(native->Opened_0),
                    },
                ));
            }
            OS_SUCCESS
        },
        Err(e) => {
            table.free_id(&token);
            proof {
                let i = first_free(old(table)@);
                let g = next_generation(old(table)@[i].generation);
                assert(table@ =~= old(table)@.update(i, free_record(g)));
            }
            e
        },
    }
}

/// Close a file descriptor previously returned by `os_opencreate`.
///
/// A valid handle closes with success: the slot's native handle is
/// released with the record and the slot is freed. A never-issued,
/// already-closed, foreign-kind, or out-of-range handle is rejected with
/// the identity error and nothing changes. A caller that must close the
/// native resource itself reads the record's handle (via `id_to_token`
/// and `get_stream`) before calling.
pub fn os_close(table: &mut ObjectTable, filedes: OsalId) -> (status: i32)
    requires
        old(table).wf(),
    ensures
        final(table).wf(),
        status == spec_close(old(table)@, filedes).0,
        final(table)@ == spec_close(old(table)@, filedes).1,
        status == OS_SUCCESS <==> id_valid(old(table)@, filedes),
{
    let token = match table.id_to_token(filedes) {
        Ok(t) => t,
        Err(e) => {
            return e;
        },
    };

    if token.obj_type != ObjectType::Stream {
        return OS_ERR_INVALID_ID;
    }

    // The slot owns the native handle; freeing the slot drops it. Liveness
    // of the slot does not depend on the native close cooperating.
    table.free_id(&token);

    OS_SUCCESS
}

} // verus!
