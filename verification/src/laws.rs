//! Laws of the open/close lifecycle, proved against the functional model
//! [`spec_open`] / [`spec_close`] that the executable facade is verified
//! to implement.
use vstd::prelude::*;

use crate::backend::{NativeError, NativeResult, spec_map_native_error, spec_valid_mode};
use crate::error::{OS_ERR_INVALID_ID, OS_ERR_NO_FREE_IDS, OS_FS_ERR_PATH_INVALID, OS_SUCCESS};
use crate::file_api::{OS_MAX_LOCAL_PATH_LEN, spec_close, spec_open};
use crate::object_table::{RecordModel, first_free, has_free, id_index, id_valid, is_first_free,
    lemma_encode_decode, lemma_first_free, next_generation, table_wf};
use crate::types::OSAL_ID_UNDEFINED;

verus! {

/// Number of free slots.
pub open spec fn free_count(s: Seq<RecordModel>) -> nat
    decreases s.len(),
{
    if s.len() == 0 {
        0
    } else {
        free_count(s.drop_last()) + (if s.last().in_use {
            0nat
        } else {
            1nat
        })
    }
}

/// Two tables with the same pattern of slots in use have the same number
/// of free slots.
pub proof fn lemma_free_count_congruence(a: Seq<RecordModel>, b: Seq<RecordModel>)
    requires
        a.len() == b.len(),
        forall|i: int| 0 <= i < a.len() ==> (#[trigger] a[i]).in_use == b[i].in_use,
    ensures
        free_count(a) == free_count(b),
    decreases a.len(),
{
    if a.len() > 0 {
        assert(forall|i: int| 0 <= i < a.drop_last().len() ==> (#[trigger] a.drop_last()[i]).in_use
            == b.drop_last()[i].in_use);
        lemma_free_count_congruence(a.drop_last(), b.drop_last());
    }
}

/// Round-trip: on a well-formed table with a free slot, opening a valid
/// path with a valid access mode whose native open succeeded returns
/// SUCCESS and a handle that is never the undefined sentinel, and closing
/// that handle returns SUCCESS and leaves the table well formed.
pub proof fn lemma_open_close_round_trip(
    s: Seq<RecordModel>,
    fd0: u32,
    path: &str,
    flags: i32,
    access_mode: i32,
    h: u64,
)
    requires
        table_wf(s),
        0 < path.len() < OS_MAX_LOCAL_PATH_LEN,
        spec_valid_mode(access_mode),
        has_free(s),
    ensures
        ({
            let (st1, id1, s1) = spec_open(s, fd0, path, flags, access_mode, NativeResult::Opened(h));
            let (st2, s2) = spec_close(s1, id1);
            &&& st1 == OS_SUCCESS
            &&& id1 != OSAL_ID_UNDEFINED
            &&& st2 == OS_SUCCESS
            &&& table_wf(s1)
            &&& table_wf(s2)
        }),
{
    lemma_first_free(s);
    let i = first_free(s);
    let g = next_generation(s[i].generation);
    lemma_encode_decode(0, g, i as u32);
    let (st1, id1, s1) = spec_open(s, fd0, path, flags, access_mode, NativeResult::Opened(h));
    assert(s1[i].in_use && s1[i].generation == g);
    assert(id_valid(s1, id1));
    let (st2, s2) = spec_close(s1, id1);
    assert(table_wf(s2));
}

/// Reopen after close: opening a path, closing the returned handle, and
/// opening again (with any flags, CREATE not needed) succeeds and yields
/// a handle that is not the undefined sentinel.
pub proof fn lemma_reopen_after_close(
    s: Seq<RecordModel>,
    fd0: u32,
    path: &str,
    flags: i32,
    access_mode: i32,
    flags2: i32,
    access_mode2: i32,
    h1: u64,
    h2: u64,
)
    requires
        table_wf(s),
        0 < path.len() < OS_MAX_LOCAL_PATH_LEN,
        spec_valid_mode(access_mode),
        spec_valid_mode(access_mode2),
        has_free(s),
    ensures
        ({
            let (st1, id1, s1) = spec_open(s, fd0, path, flags, access_mode, NativeResult::Opened(h1));
            let (st2, s2) = spec_close(s1, id1);
            let (st3, id3, s3) = spec_open(
                s2,
                OSAL_ID_UNDEFINED,
                path,
                flags2,
                access_mode2,
                NativeResult::Opened(h2),
            );
            &&& st1 == OS_SUCCESS
            &&& st2 == OS_SUCCESS
            &&& st3 == OS_SUCCESS
            &&& id3 != OSAL_ID_UNDEFINED
        }),
{
    lemma_open_close_round_trip(s, fd0, path, flags, access_mode, h1);
    lemma_first_free(s);
    let i = first_free(s);
    let (st1, id1, s1) = spec_open(s, fd0, path, flags, access_mode, NativeResult::Opened(h1));
    let g = next_generation(s[i].generation);
    lemma_encode_decode(0, g, i as u32);
    let (st2, s2) = spec_close(s1, id1);
    assert(!s2[i].in_use);
    assert(has_free(s2));
    lemma_first_free(s2);
    let i2 = first_free(s2);
    let g2 = next_generation(s2[i2].generation);
    lemma_encode_decode(0, g2, i2 as u32);
}

/// Double-close rejection: closing a valid handle succeeds once; a second
/// close of the same handle is rejected with the identity error and
/// changes nothing.
pub proof fn lemma_double_close(s: Seq<RecordModel>, id: u32)
    requires
        table_wf(s),
        id_valid(s, id),
    ensures
        spec_close(s, id).0 == OS_SUCCESS,
        spec_close(spec_close(s, id).1, id).0 == OS_ERR_INVALID_ID,
        spec_close(spec_close(s, id).1, id).1 == spec_close(s, id).1,
{
    let s1 = spec_close(s, id).1;
    assert(!s1[id_index(id) as int].in_use);
}

/// Invalid-handle rejection: closing the undefined sentinel handle is
/// always rejected with the identity error and changes nothing.
pub proof fn lemma_close_undefined_rejected(s: Seq<RecordModel>)
    requires
        table_wf(s),
    ensures
        spec_close(s, OSAL_ID_UNDEFINED).0 == OS_ERR_INVALID_ID,
        spec_close(s, OSAL_ID_UNDEFINED).1 == s,
{
    assert((0u32 >> 12) & 0xFFF == 0) by (bit_vector);
    assert(0u32 & 0xFFF == 0) by (bit_vector);
    assert(0u32 >> 24 == 0) by (bit_vector);
    if id_valid(s, 0) {
        assert(s[0].in_use && s[0].generation == 0);
        assert(false);
    }
}

/// Nonexistent-file rejection: when the native layer reports "not found",
/// the open returns the path-invalid error — never SUCCESS — and the
/// output handle is the undefined sentinel.
pub proof fn lemma_open_nonexistent_rejected(
    s: Seq<RecordModel>,
    fd0: u32,
    path: &str,
    flags: i32,
    access_mode: i32,
)
    requires
        table_wf(s),
        0 < path.len() < OS_MAX_LOCAL_PATH_LEN,
        spec_valid_mode(access_mode),
    ensures
        ({
            let (st, id, s1) = spec_open(
                s,
                fd0,
                path,
                flags,
                access_mode,
                NativeResult::Failed(NativeError::NotFound),
            );
            &&& st != OS_SUCCESS
            &&& id == OSAL_ID_UNDEFINED
            &&& has_free(s) ==> st == OS_FS_ERR_PATH_INVALID
        }),
{
    if has_free(s) {
        lemma_first_free(s);
    }
}

/// Exhaustion: an open attempt on a table with every slot in use fails
/// with `OS_ERR_NO_FREE_IDS` (given otherwise valid inputs), the table is
/// left exactly as it was, and every handle that was valid before stays
/// valid.
pub proof fn lemma_exhaustion(
    s: Seq<RecordModel>,
    fd0: u32,
    path: &str,
    flags: i32,
    access_mode: i32,
    native: NativeResult,
)
    requires
        table_wf(s),
        !has_free(s),
    ensures
        spec_open(s, fd0, path, flags, access_mode, native).2 == s,
        spec_open(s, fd0, path, flags, access_mode, native).0 != OS_SUCCESS,
        0 < path.len() < OS_MAX_LOCAL_PATH_LEN && spec_valid_mode(access_mode)
            ==> spec_open(s, fd0, path, flags, access_mode, native).0 == OS_ERR_NO_FREE_IDS,
        forall|id: u32|
            id_valid(s, id) ==> id_valid(
                spec_open(s, fd0, path, flags, access_mode, native).2,
                id,
            ),
{
}

/// No leak on backend failure: an open whose native open failed after
/// allocation returns a non-SUCCESS status and the sentinel handle, and
/// rolls the slot back — the pattern of slots in use, the number of free
/// slots, and the index the next allocation will take are all exactly as
/// before the call.
pub proof fn lemma_no_leak_on_backend_failure(
    s: Seq<RecordModel>,
    fd0: u32,
    path: &str,
    flags: i32,
    access_mode: i32,
    e: NativeError,
)
    requires
        table_wf(s),
        0 < path.len() < OS_MAX_LOCAL_PATH_LEN,
        spec_valid_mode(access_mode),
        has_free(s),
    ensures
        ({
            let (st, id, s1) = spec_open(s, fd0, path, flags, access_mode, NativeResult::Failed(e));
            &&& st == spec_map_native_error(e)
            &&& st != OS_SUCCESS
            &&& id == OSAL_ID_UNDEFINED
            &&& forall|j: int| 0 <= j < s.len() ==> (#[trigger] s1[j]).in_use == s[j].in_use
            &&& free_count(s1) == free_count(s)
            &&& is_first_free(s1, first_free(s))
        }),
{
    lemma_first_free(s);
    let i = first_free(s);
    let (st, id, s1) = spec_open(s, fd0, path, flags, access_mode, NativeResult::Failed(e));
    assert(forall|j: int| 0 <= j < s.len() ==> (#[trigger] s1[j]).in_use == s[j].in_use);
    lemma_free_count_congruence(s1, s);
}

/// Lowest-index reuse: after closing the handle of slot 0 while another
/// slot stays open, the next successful open takes index 0 again, not a
/// higher index.
pub proof fn lemma_lowest_index_reuse(
    s: Seq<RecordModel>,
    id0: u32,
    path: &str,
    flags: i32,
    access_mode: i32,
    h: u64,
)
    requires
        table_wf(s),
        s.len() >= 2,
        id_valid(s, id0),
        id_index(id0) == 0,
        s[1].in_use,
        0 < path.len() < OS_MAX_LOCAL_PATH_LEN,
        spec_valid_mode(access_mode),
    ensures
        ({
            let (st1, s1) = spec_close(s, id0);
            let (st2, id2, s2) = spec_open(
                s1,
                OSAL_ID_UNDEFINED,
                path,
                flags,
                access_mode,
                NativeResult::Opened(h),
            );
            &&& st1 == OS_SUCCESS
            &&& st2 == OS_SUCCESS
            &&& id_index(id2) == 0
        }),
{
    let (st1, s1) = spec_close(s, id0);
    assert(!s1[0].in_use);
    assert(has_free(s1));
    assert(first_free(s1) == 0);
    let g = next_generation(s1[0].generation);
    lemma_encode_decode(0, g, 0);
}

} // verus!
