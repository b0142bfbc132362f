//! Constants of the plugin interface and the records that the plugin fills.
use vstd::prelude::*;

verus! {

/// The operation succeeded.
pub const FS_FILE_OK: i32 = 0;
/// A read from the remote side failed.
pub const FS_FILE_READERROR: i32 = 3;
/// A write to the target side failed.
pub const FS_FILE_WRITEERROR: i32 = 4;
/// The target exists and the caller may choose to resume or overwrite.
pub const FS_FILE_EXISTSRESUMEALLOWED: i32 = 7;
/// The execute request succeeded.
pub const FS_EXEC_OK: i32 = 0;
/// The execute request failed.
pub const FS_EXEC_ERROR: i32 = 1;

/// Attribute bit marking an entry as a directory.
pub const FILE_ATTRIBUTE_DIRECTORY: u32 = 0x00000010;
/// Attribute bit telling the host that `dw_reserved_0` holds a Unix mode.
pub const FILE_ATTRIBUTE_UNIX_MODE: u32 = 0x80000000;

/// Unix mode bit of a directory.
pub const S_IFDIR: u32 = 0o040000;
/// Unix mode bit: owner may read.
pub const S_IRUSR: u32 = 0o400;
/// Unix mode bit: owner may write.
pub const S_IWUSR: u32 = 0o200;
/// Unix mode bit: owner may execute.
pub const S_IXUSR: u32 = 0o100;

/// Size of the file name buffer of a find record, terminating NUL included.
pub const MAX_PATH: usize = 260;
/// Size of the alternate (8.3) file name buffer of a find record.
pub const ALTERNATE_NAME_LEN: usize = 14;

/// A Windows file time split into its low and high 32-bit halves.
#[derive(Debug, Clone, Copy, PartialEq, Eq, Structural)]
pub struct FILETIME {
    pub dw_low_date_time: u32,
    pub dw_high_date_time: u32,
}

impl FILETIME {
    /// A file time made of the given halves.
    pub fn new(low: u32, high: u32) -> (r: Self)
        ensures
            r.dw_low_date_time == low,
            r.dw_high_date_time == high,
    {
        Self { dw_low_date_time: low, dw_high_date_time: high }
    }

    /// The zero file time.
    pub fn default() -> (r: Self)
        ensures
            r.dw_low_date_time == 0,
            r.dw_high_date_time == 0,
    {
        Self { dw_low_date_time: 0, dw_high_date_time: 0 }
    }
}


/// The bytes of a NUL-terminated C string of `name` in a buffer of `capacity`
/// bytes: `name`, then zero bytes up to the end.
pub open spec fn c_name_buffer(name: Seq<u8>, capacity: nat) -> Seq<u8> {
    Seq::new(capacity, |i: int| if i < name.len() { name[i] } else { 0u8 })
}

/// A buffer of `capacity` bytes holding `name` as a NUL-terminated C string.
pub fn c_string_buffer(name: &[u8], capacity: usize) -> (r: Vec<u8>)
    requires
        name@.len() < capacity,
    ensures
        r@ == c_name_buffer(name@, capacity as nat),
        r@[name@.len() as int] == 0u8,
{
    let mut r: Vec<u8> = Vec::new();
    let mut i: usize = 0;
    while i < capacity
        invariant
            name@.len() < capacity,
            i <= capacity,
            r@ =~= c_name_buffer(name@, capacity as nat).take(i as int),
        decreases capacity - i,
    {
        if i < name.len() {
            r.push(name[i]);
        } else {
            r.push(0u8);
        }
        i = i + 1;
    }
    assert(r@ =~= c_name_buffer(name@, capacity as nat));
    r
}

/// What the plugin tells the file manager about one directory entry (the
/// plugin interface's `WIN32_FIND_DATAA`, with its character arrays held as
/// byte vectors).
#[derive(Debug, Clone)]
pub struct FindData {
    pub dw_file_attributes: u32,
    pub ft_creation_time: FILETIME,
    pub ft_last_access_time: FILETIME,
    pub ft_last_write_time: FILETIME,
    pub n_file_size_high: u32,
    pub n_file_size_low: u32,
    pub dw_reserved_0: u32,
    pub dw_reserved_1: u32,
    /// `MAX_PATH` bytes: the entry's name as a NUL-terminated string.
    pub c_file_name: Vec<u8>,
    /// `ALTERNATE_NAME_LEN` bytes, all zero.
    pub c_alternate_file_name: Vec<u8>,
}

/// `fd` describes an entry named `name` (its UTF-8 bytes) with the given
/// attributes, Unix mode word and time, of size zero.
pub open spec fn is_entry_record(
    fd: FindData,
    attributes: u32,
    reserved_0: u32,
    time: FILETIME,
    name: Seq<u8>,
) -> bool {
    &&& fd.dw_file_attributes == attributes
    &&& fd.ft_creation_time == time
    &&& fd.ft_last_access_time == time
    &&& fd.ft_last_write_time == time
    &&& fd.n_file_size_high == 0
    &&& fd.n_file_size_low == 0
    &&& fd.dw_reserved_0 == reserved_0
    &&& fd.dw_reserved_1 == 0
    &&& fd.c_file_name@ == c_name_buffer(name, MAX_PATH as nat)
    &&& fd.c_alternate_file_name@ == Seq::new(ALTERNATE_NAME_LEN as nat, |i: int| 0u8)
}

impl FindData {
    /// An all-zero record.
    pub fn new() -> (r: FindData)
        ensures
            is_entry_record(r, 0, 0, FILETIME { dw_low_date_time: 0, dw_high_date_time: 0 }, Seq::empty()),
    {
        let empty: Vec<u8> = Vec::new();
        let name = c_string_buffer(empty.as_slice(), MAX_PATH);
        let alternate = c_string_buffer(empty.as_slice(), ALTERNATE_NAME_LEN);
        assert(alternate@ =~= Seq::new(ALTERNATE_NAME_LEN as nat, |i: int| 0u8));
        FindData {
            dw_file_attributes: 0,
            ft_creation_time: FILETIME::default(),
            ft_last_access_time: FILETIME::default(),
            ft_last_write_time: FILETIME::default(),
            n_file_size_high: 0,
            n_file_size_low: 0,
            dw_reserved_0: 0,
            dw_reserved_1: 0,
            c_file_name: name,
            c_alternate_file_name: alternate,
        }
    }

    /// Overwrites the record with the description of an entry named `name`
    /// (its UTF-8 bytes): the given attributes, Unix mode word and time for
    /// creation, last access and last write, size zero, and the name as a
    /// NUL-terminated string. A name of `MAX_PATH` bytes or more does not fit
    /// with its terminator; the record is then left as it was.
    pub fn fill_entry(&mut self, attributes: u32, reserved_0: u32, time: FILETIME, name: &[u8])
        ensures
            name@.len() < MAX_PATH ==> is_entry_record(
                *final(self),
                attributes,
                reserved_0,
                time,
                name@,
            ),
            name@.len() >= MAX_PATH ==> *final(self) == *old(self),
    {
        if name.len() < MAX_PATH {
            let file_name = c_string_buffer(name, MAX_PATH);
            let empty: Vec<u8> = Vec::new();
            let alternate = c_string_buffer(empty.as_slice(), ALTERNATE_NAME_LEN);
            assert(alternate@ =~= Seq::new(ALTERNATE_NAME_LEN as nat, |i: int| 0u8));
            self.dw_file_attributes = attributes;
            self.ft_creation_time = time;
            self.ft_last_access_time = time;
            self.ft_last_write_time = time;
            self.n_file_size_high = 0;
            self.n_file_size_low = 0;
            self.dw_reserved_0 = reserved_0;
            self.dw_reserved_1 = 0;
            self.c_file_name = file_name;
            self.c_alternate_file_name = alternate;
        }
    }
}

} // verus!
