//! What the plugin answers the file manager: status codes and the name of
//! the plugin's root.
use vstd::prelude::*;
use crate::consts::{
    c_name_buffer, c_string_buffer, FS_EXEC_ERROR, FS_EXEC_OK, FS_FILE_OK, FS_FILE_READERROR, FS_FILE_WRITEERROR,
};
use crate::consts::FindData;
use crate::iterators::{FsDataHandler, FsError, entry_time_in_range, record_updated};

verus! {

/// A request on a file whose outcome the plugin reports.
#[derive(Debug, Clone, Copy, PartialEq, Eq, Structural)]
pub enum FileOperation {
    /// Copy a remote file to a local one.
    Get,
    /// Copy a local file to a remote one.
    Put,
    /// Execute a remote file.
    Execute,
    /// Delete a remote file.
    Delete,
}

/// The first step of a copy: report that the target exists, or transfer.
#[derive(Debug, Clone, Copy, PartialEq, Eq, Structural)]
pub enum CopyStep {
    ReportExists,
    Transfer,
}

/// A copy without flags onto an existing target is not done: the plugin
/// reports that the target exists, so that the file manager may ask the user.
pub fn copy_step(copy_flags: i32, target_exists: bool) -> (r: CopyStep)
    ensures
        r == (if copy_flags == 0 && target_exists {
            CopyStep::ReportExists
        } else {
            CopyStep::Transfer
        }),
{
    if copy_flags == 0 && target_exists {
        CopyStep::ReportExists
    } else {
        CopyStep::Transfer
    }
}

/// The status code reported for the outcome of a request: success, else a
/// read error for a get, a write error for a put or a delete, and an execute
/// error for an execute.
pub open spec fn spec_status(op: FileOperation, ok: bool) -> i32 {
    match op {
        FileOperation::Get => if ok { FS_FILE_OK } else { FS_FILE_READERROR },
        FileOperation::Put => if ok { FS_FILE_OK } else { FS_FILE_WRITEERROR },
        FileOperation::Execute => if ok { FS_EXEC_OK } else { FS_EXEC_ERROR },
        FileOperation::Delete => if ok { FS_FILE_OK } else { FS_FILE_WRITEERROR },
    }
}

/// The status code reported for the outcome of `op`.
pub fn operation_status(op: FileOperation, outcome: &Result<(), FsError>) -> (r: i32)
    ensures
        r == spec_status(op, outcome is Ok),
{
    let ok = outcome.is_ok();
    match op {
        FileOperation::Get => if ok { FS_FILE_OK } else { FS_FILE_READERROR },
        FileOperation::Put => if ok { FS_FILE_OK } else { FS_FILE_WRITEERROR },
        FileOperation::Execute => if ok { FS_EXEC_OK } else { FS_EXEC_ERROR },
        FileOperation::Delete => if ok { FS_FILE_OK } else { FS_FILE_WRITEERROR },
    }
}

/// The bytes of the plugin's root name, `k8s`.
pub open spec fn root_name_bytes() -> Seq<u8> {
    seq![0x6bu8, 0x38u8, 0x73u8]
}

/// The plugin's root name `k8s` as a NUL-terminated string in a buffer of
/// `maxlen` bytes; none when the name and its terminator do not fit.
pub fn def_root_name(maxlen: i32) -> (r: Option<Vec<u8>>)
    ensures
        r is Some <==> maxlen > 3,
        r matches Some(b) ==> b@ == c_name_buffer(root_name_bytes(), maxlen as nat),
{
    if maxlen > 3 {
        let name: Vec<u8> = vec![0x6bu8, 0x38u8, 0x73u8];
        assert(name@ =~= root_name_bytes());
        Some(c_string_buffer(name.as_slice(), maxlen as usize))
    } else {
        None
    }
}

/// The outcome of one step of a directory search.
#[derive(Debug, Clone, Copy, PartialEq, Eq, Structural)]
pub enum FindStep {
    /// The listing moved to an entry, now described in the record.
    Entry,
    /// The listing had no more entries.
    End,
    /// The listing moved to an entry whose creation time does not convert
    /// to a file time; the record was left as it was.
    TimeOutOfRange,
}

/// One step of a directory search: moves `handler` to its next entry and
/// describes that entry in `find_data`.
pub fn find_step(handler: &mut FsDataHandler, find_data: &mut FindData) -> (r: FindStep)
    ensures
        final(handler).kind() == old(handler).kind(),
        (r == FindStep::End) <==> old(handler).remaining().len() == 0,
        r != FindStep::End ==> final(handler).current() == Some(old(handler).remaining()[0]),
        r != FindStep::End ==> final(handler).remaining() == old(handler).remaining().drop_first(),
        r == FindStep::End ==> final(handler).current() is None && final(handler).remaining()
            == old(handler).remaining(),
        (r == FindStep::TimeOutOfRange) <==> (old(handler).remaining().len() > 0
            && !entry_time_in_range(old(handler).remaining()[0])),
        r == FindStep::Entry ==> record_updated(
            *old(find_data),
            *final(find_data),
            final(handler).record_fields(old(handler).remaining()[0]),
        ),
        r != FindStep::Entry ==> *final(find_data) == *old(find_data),
{
    match handler.next() {
        Some(_) => {
            if handler.can_update_find_data() {
                handler.update_find_data(find_data);
                FindStep::Entry
            } else {
                FindStep::TimeOutOfRange
            }
        },
        None => FindStep::End,
    }
}

/// A request is reported with code 0, the success code of every kind of
/// request, exactly when its outcome is `Ok`; a failed request gets a code
/// other than 0.
pub proof fn lemma_status_zero_exactly_on_success(op: FileOperation, ok: bool)
    ensures
        (spec_status(op, ok) == 0) <==> ok,
        ok ==> spec_status(op, ok) == (if op == FileOperation::Execute { FS_EXEC_OK } else { FS_FILE_OK }),
{
}

} // verus!
