use osal::{
    NativeError, NativeResult, ObjectTable, OS_ERR_INVALID_ID, OS_ERR_NO_FREE_IDS, OS_ERROR,
    OS_FILE_FLAG_CREATE, OS_FILE_FLAG_NONE, OS_FILE_FLAG_TRUNCATE, OS_FS_ERR_PATH_INVALID,
    OS_FS_ERR_PATH_TOO_LONG, OS_INVALID_POINTER, OS_READ_ONLY, OS_READ_WRITE, OS_SUCCESS,
    OS_WRITE_ONLY, OSAL_ID_UNDEFINED, OsalId, os_close, os_opencreate,
};

fn open_ok(table: &mut ObjectTable, path: &str, handle: u64) -> (i32, OsalId) {
    let mut filedes: OsalId = OSAL_ID_UNDEFINED;
    let status = os_opencreate(
        table,
        &mut filedes,
        path,
        OS_FILE_FLAG_CREATE | OS_FILE_FLAG_TRUNCATE,
        OS_READ_WRITE,
        NativeResult::Opened(handle),
    );
    (status, filedes)
}

#[test]
fn first_open_issues_exact_handle() {
    // Slot 0, generation 1: kind tag 0 in bits 31..24, generation in
    // bits 23..12, index in bits 11..0.
    let mut table = ObjectTable::new(32);
    let (status, filedes) = open_ok(&mut table, "/drive0/a", 7);
    assert_eq!(status, OS_SUCCESS);
    assert_eq!(filedes, 0x1000);

    // Slot 1, generation 1.
    let (status, filedes2) = open_ok(&mut table, "/drive0/b", 8);
    assert_eq!(status, OS_SUCCESS);
    assert_eq!(filedes2, 0x1001);
}

#[test]
fn empty_path_rejected_output_untouched() {
    let mut table = ObjectTable::new(4);
    let mut filedes: OsalId = 5;
    let status = os_opencreate(
        &mut table,
        &mut filedes,
        "",
        OS_FILE_FLAG_NONE,
        OS_READ_ONLY,
        NativeResult::Opened(1),
    );
    assert_eq!(status, OS_INVALID_POINTER);
    assert_eq!(filedes, 5);
}

#[test]
fn bad_access_mode_rejected() {
    let mut table = ObjectTable::new(4);
    let mut filedes: OsalId = 5;
    let status = os_opencreate(
        &mut table,
        &mut filedes,
        "/drive0/a",
        OS_FILE_FLAG_NONE,
        3,
        NativeResult::Opened(1),
    );
    assert_eq!(status, OS_ERROR);
    assert_eq!(filedes, OSAL_ID_UNDEFINED);

    let status = os_opencreate(
        &mut table,
        &mut filedes,
        "/drive0/a",
        OS_FILE_FLAG_NONE,
        -1,
        NativeResult::Opened(1),
    );
    assert_eq!(status, OS_ERROR);
}

#[test]
fn long_path_rejected_at_inclusive_boundary() {
    let mut table = ObjectTable::new(4);
    let mut filedes: OsalId = OSAL_ID_UNDEFINED;

    // 264 bytes: too long.
    let long = "x".repeat(264);
    let status = os_opencreate(
        &mut table,
        &mut filedes,
        &long,
        OS_FILE_FLAG_NONE,
        OS_READ_ONLY,
        NativeResult::Opened(1),
    );
    assert_eq!(status, OS_FS_ERR_PATH_TOO_LONG);
    assert_eq!(filedes, OSAL_ID_UNDEFINED);

    // 263 bytes: accepted.
    let just_fits = "x".repeat(263);
    let status = os_opencreate(
        &mut table,
        &mut filedes,
        &just_fits,
        OS_FILE_FLAG_NONE,
        OS_READ_ONLY,
        NativeResult::Opened(1),
    );
    assert_eq!(status, OS_SUCCESS);
}

#[test]
fn not_found_maps_to_path_invalid() {
    let mut table = ObjectTable::new(4);
    let mut filedes: OsalId = OSAL_ID_UNDEFINED;
    let status = os_opencreate(
        &mut table,
        &mut filedes,
        "/drive0/FileNotHere",
        OS_FILE_FLAG_NONE,
        OS_READ_ONLY,
        NativeResult::Failed(NativeError::NotFound),
    );
    assert_eq!(status, OS_FS_ERR_PATH_INVALID);
    assert_eq!(filedes, OSAL_ID_UNDEFINED);
}

#[test]
fn permission_denied_maps_to_generic_error() {
    let mut table = ObjectTable::new(4);
    let mut filedes: OsalId = OSAL_ID_UNDEFINED;
    let status = os_opencreate(
        &mut table,
        &mut filedes,
        "/drive0/secret",
        OS_FILE_FLAG_NONE,
        OS_WRITE_ONLY,
        NativeResult::Failed(NativeError::PermissionDenied),
    );
    assert_eq!(status, OS_ERROR);
    assert_eq!(filedes, OSAL_ID_UNDEFINED);
}

#[test]
fn exhaustion_returns_no_free_ids_and_keeps_prior_handles() {
    let mut table = ObjectTable::new(2);
    let (s1, fd1) = open_ok(&mut table, "/drive0/a", 1);
    let (s2, fd2) = open_ok(&mut table, "/drive0/b", 2);
    assert_eq!(s1, OS_SUCCESS);
    assert_eq!(s2, OS_SUCCESS);

    // Table full: the third attempt fails with NO_FREE_IDS.
    let mut filedes: OsalId = OSAL_ID_UNDEFINED;
    let status = os_opencreate(
        &mut table,
        &mut filedes,
        "/drive0/c",
        OS_FILE_FLAG_CREATE,
        OS_READ_WRITE,
        NativeResult::Opened(3),
    );
    assert_eq!(status, OS_ERR_NO_FREE_IDS);
    assert_eq!(filedes, OSAL_ID_UNDEFINED);

    // Both prior handles are still valid.
    assert_eq!(os_close(&mut table, fd1), OS_SUCCESS);
    assert_eq!(os_close(&mut table, fd2), OS_SUCCESS);
}

#[test]
fn backend_failure_leaks_no_slot() {
    let mut table = ObjectTable::new(1);

    // The open allocates slot 0 (bumping its generation to 1), then the
    // native layer refuses; the slot must be rolled back.
    let mut filedes: OsalId = OSAL_ID_UNDEFINED;
    let status = os_opencreate(
        &mut table,
        &mut filedes,
        "/drive0/secret",
        OS_FILE_FLAG_NONE,
        OS_READ_ONLY,
        NativeResult::Failed(NativeError::PermissionDenied),
    );
    assert_eq!(status, OS_ERROR);
    assert!(table.has_free_slot());

    // A subsequent open succeeds and reuses index 0, now at generation 2.
    let (status, filedes) = open_ok(&mut table, "/drive0/a", 4);
    assert_eq!(status, OS_SUCCESS);
    assert_eq!(filedes, 0x2000);
}

#[test]
fn lowest_free_index_is_reused() {
    let mut table = ObjectTable::new(4);
    let (_, fd0) = open_ok(&mut table, "/drive0/a", 1);
    let (_, fd1) = open_ok(&mut table, "/drive0/b", 2);
    assert_eq!(fd0 & 0xFFF, 0);
    assert_eq!(fd1 & 0xFFF, 1);

    // Free slot 0 while slot 1 stays open: the next open takes index 0.
    assert_eq!(os_close(&mut table, fd0), OS_SUCCESS);
    let (status, fd2) = open_ok(&mut table, "/drive0/c", 3);
    assert_eq!(status, OS_SUCCESS);
    assert_eq!(fd2 & 0xFFF, 0);
}

#[test]
fn stale_handle_stays_invalid_after_slot_reuse() {
    let mut table = ObjectTable::new(2);
    let (_, stale) = open_ok(&mut table, "/drive0/a", 1);
    assert_eq!(os_close(&mut table, stale), OS_SUCCESS);

    // Slot 0 is reallocated; its generation differs, so the old handle
    // does not resolve to the new resource.
    let (status, fresh) = open_ok(&mut table, "/drive0/b", 2);
    assert_eq!(status, OS_SUCCESS);
    assert_eq!(fresh & 0xFFF, stale & 0xFFF);
    assert_ne!(fresh, stale);
    assert_eq!(os_close(&mut table, stale), OS_ERR_INVALID_ID);
    assert_eq!(os_close(&mut table, fresh), OS_SUCCESS);
}

#[test]
fn foreign_kind_and_out_of_range_handles_rejected() {
    let mut table = ObjectTable::new(2);
    let (_, fd) = open_ok(&mut table, "/drive0/a", 1);

    // Unrecognized kind tag.
    assert_eq!(os_close(&mut table, 0xFF00_0000 | fd), OS_ERR_INVALID_ID);
    // Index beyond the table.
    assert_eq!(os_close(&mut table, 0x1005), OS_ERR_INVALID_ID);
    // Never-issued generation.
    assert_eq!(os_close(&mut table, 0x2000), OS_ERR_INVALID_ID);
    // The real handle still closes.
    assert_eq!(os_close(&mut table, fd), OS_SUCCESS);
}

#[test]
fn status_codes_have_fixed_values() {
    assert_eq!(OS_SUCCESS, 0);
    assert_eq!(OS_ERROR, -1);
    assert_eq!(OS_INVALID_POINTER, -2);
    assert_eq!(OS_ERR_NO_FREE_IDS, -3);
    assert_eq!(OS_FS_ERR_PATH_TOO_LONG, -4);
    assert_eq!(OS_FS_ERR_PATH_INVALID, -5);
    assert_eq!(osal::OS_FS_ERR_NAME_TOO_LONG, -6);
    assert_eq!(OS_ERR_INVALID_ID, -7);
}
