use k8s_wfx::consts::{
    c_string_buffer, FS_EXEC_ERROR, FS_EXEC_OK, FS_FILE_OK, FS_FILE_READERROR, FS_FILE_WRITEERROR,
};
use k8s_wfx::iterators::FsError;
use k8s_wfx::plugin::{copy_step, def_root_name, operation_status, CopyStep, FileOperation};

#[test]
fn copy_without_flags_onto_existing_target_reports_it() {
    assert_eq!(copy_step(0, true), CopyStep::ReportExists);
    assert_eq!(copy_step(0, false), CopyStep::Transfer);
    assert_eq!(copy_step(1, true), CopyStep::Transfer);
}

#[test]
fn status_codes() {
    let ok: Result<(), FsError> = Ok(());
    let err: Result<(), FsError> = Err(FsError::RequestFailed);
    assert_eq!(operation_status(FileOperation::Get, &ok), FS_FILE_OK);
    assert_eq!(operation_status(FileOperation::Get, &err), FS_FILE_READERROR);
    assert_eq!(operation_status(FileOperation::Get, &err), 3);
    assert_eq!(operation_status(FileOperation::Put, &err), FS_FILE_WRITEERROR);
    assert_eq!(operation_status(FileOperation::Put, &err), 4);
    assert_eq!(operation_status(FileOperation::Execute, &ok), FS_EXEC_OK);
    assert_eq!(operation_status(FileOperation::Execute, &err), FS_EXEC_ERROR);
    assert_eq!(operation_status(FileOperation::Execute, &err), 1);
    assert_eq!(operation_status(FileOperation::Delete, &ok), 0);
    assert_eq!(operation_status(FileOperation::Delete, &err), 4);
}

#[test]
fn root_name_is_k8s() {
    assert_eq!(def_root_name(4), Some(b"k8s\0".to_vec()));
    assert_eq!(def_root_name(6), Some(b"k8s\0\0\0".to_vec()));
    assert_eq!(def_root_name(3), None);
    assert_eq!(def_root_name(-1), None);
}

#[test]
fn c_string_buffer_terminates_and_pads() {
    assert_eq!(c_string_buffer(b"ab", 5), b"ab\0\0\0".to_vec());
    assert_eq!(c_string_buffer(b"", 1), vec![0u8]);
}

use k8s_wfx::consts::FindData;
use k8s_wfx::iterators::{FsDataHandler, ObjectSummary, ResourcesIteratorFactory};
use k8s_wfx::plugin::{find_step, FindStep};
use k8s_wfx::shareddata::SharedData;

#[test]
fn find_steps_describe_each_entry_then_end() {
    let route = ResourcesIteratorFactory::new("/ctx/pod", &SharedData::new());
    let objects = vec![
        ObjectSummary { name: "a".to_string(), creation_millis: None },
        ObjectSummary { name: "b".to_string(), creation_millis: Some(i64::MIN) },
        ObjectSummary { name: "c".to_string(), creation_millis: Some(1) },
    ];
    let mut h = FsDataHandler::from_route(&route, Vec::new(), objects);
    let mut fd = FindData::new();
    assert_eq!(find_step(&mut h, &mut fd), FindStep::Entry);
    assert_eq!(&fd.c_file_name[..2], b"a\0");
    assert_eq!(find_step(&mut h, &mut fd), FindStep::TimeOutOfRange);
    assert_eq!(&fd.c_file_name[..2], b"a\0");
    assert_eq!(h.artifact_name(), "b");
    assert_eq!(find_step(&mut h, &mut fd), FindStep::Entry);
    assert_eq!(&fd.c_file_name[..2], b"c\0");
    assert_eq!(fd.ft_creation_time.dw_low_date_time, 0xD53E8000u32.wrapping_add(10000));
    assert_eq!(find_step(&mut h, &mut fd), FindStep::End);
    assert_eq!(&fd.c_file_name[..2], b"c\0");
    assert_eq!(find_step(&mut h, &mut fd), FindStep::End);
}
