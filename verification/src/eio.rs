//! The async-I/O module: path marshalling for the file operations and the
//! trampolines for their filter, main, progress, done and error callbacks.
//!
//! Every operation registers a payload and a set of callbacks and returns
//! an operation handle; the native side then reports progress, completion
//! or an error by calling back on the main loop's thread.  The progress
//! record and the listed paths cross the boundary as plain values and are
//! decoded here.

use crate::eina::EinaBool;
use crate::eseful::{
    from_bool_to_eina, from_native_lossy, lossy_utf8, nul_prefix, recover, spec_bool_to_eina,
    spec_to_native, to_native, MarshalError, NativeString, OpaqueHandle,
};
use vstd::prelude::*;

verus! {

/// Tag for a running native I/O operation.
pub enum EioFile {
    Opaque,
}

/// What kind of I/O operation a progress report belongs to.
#[derive(Clone, Copy, Debug, PartialEq, Eq, Structural)]
pub enum EioFileOp {
    /// The operation copies one file.
    EioFileCopy,
    /// The operation moves one file.
    EioFileMove,
    /// The operation copies a directory.
    EioDirCopy,
    /// The operation moves a directory.
    EioDirMove,
    /// The operation destroys a path.
    EioUnlink,
    /// The operation resolves a user name to its id.
    EioFileGetpwnam,
    /// The operation resolves a group name to its id.
    EioFileGetgrnam,
}

/// A progress report, decoded from the record the native side hands the
/// progress callback.  The percentage is carried as the bit pattern of the
/// native single-precision float, which this layer passes through untouched.
pub struct EioProgress {
    pub op: EioFileOp,
    pub current: i64,
    pub max: i64,
    pub percent_bits: u32,
    pub source: String,
    pub dest: String,
}

/// Decode the native progress record: the counters pass through, the two
/// paths are NUL-terminated buffers decoded best-effort for display.
pub fn progress_decode(
    op: EioFileOp,
    current: i64,
    max: i64,
    percent_bits: u32,
    source_buf: &[u8],
    dest_buf: &[u8],
) -> (p: EioProgress)
    requires
        source_buf@.contains(0),
        dest_buf@.contains(0),
    ensures
        p.op == op,
        p.current == current,
        p.max == max,
        p.percent_bits == percent_bits,
        p.source@ == lossy_utf8(nul_prefix(source_buf@)),
        p.dest@ == lossy_utf8(nul_prefix(dest_buf@)),
{
    EioProgress {
        op,
        current,
        max,
        percent_bits,
        source: from_native_lossy(source_buf),
        dest: from_native_lossy(dest_buf),
    }
}

/// The filter trampoline: recover the typed payload, hand the typed
/// callback the operation handle and the decoded path, and marshal its
/// keep-or-drop verdict back to the native truth value.
pub fn filter_trampoline<T, F: Fn(&T, usize, &String) -> bool>(
    data: &OpaqueHandle<T>,
    file: usize,
    path: &String,
    func: &F,
) -> (r: EinaBool)
    requires
        call_requires(*func, (&data.value(), file, path)),
    ensures
        exists|b: bool|
            #[trigger] call_ensures(*func, (&data.value(), file, path), b) && r == spec_bool_to_eina(
                b,
            ),
{
    let payload = recover(data);
    let b = func(payload, file, path);
    from_bool_to_eina(b)
}

/// The main trampoline: recover the typed payload and hand the typed
/// callback the operation handle and the decoded path of one listed entry.
pub fn main_trampoline<T, F: Fn(&T, usize, &String)>(
    data: &OpaqueHandle<T>,
    file: usize,
    path: &String,
    func: &F,
)
    requires
        call_requires(*func, (&data.value(), file, path)),
    ensures
        call_ensures(*func, (&data.value(), file, path), ()),
{
    let payload = recover(data);
    func(payload, file, path);
}

/// The progress trampoline: recover the typed payload and hand the typed
/// callback the operation handle and the decoded progress report.
pub fn progress_trampoline<T, F: Fn(&T, usize, &EioProgress)>(
    data: &OpaqueHandle<T>,
    file: usize,
    progress: &EioProgress,
    func: &F,
)
    requires
        call_requires(*func, (&data.value(), file, progress)),
    ensures
        call_ensures(*func, (&data.value(), file, progress), ()),
{
    let payload = recover(data);
    func(payload, file, progress);
}

/// The done trampoline: recover the typed payload and report the finished
/// operation to the typed callback.
pub fn done_trampoline<T, F: Fn(&T, usize)>(data: &OpaqueHandle<T>, file: usize, func: &F)
    requires
        call_requires(*func, (&data.value(), file)),
    ensures
        call_ensures(*func, (&data.value(), file), ()),
{
    let payload = recover(data);
    func(payload, file);
}

/// The error trampoline: recover the typed payload and report the failed
/// operation and its error number to the typed callback.
pub fn error_trampoline<T, F: Fn(&T, usize, i32)>(
    data: &OpaqueHandle<T>,
    file: usize,
    error: i32,
    func: &F,
)
    requires
        call_requires(*func, (&data.value(), file, error)),
    ensures
        call_ensures(*func, (&data.value(), file, error), ()),
{
    let payload = recover(data);
    func(payload, file, error);
}

/// Marshal the directory path of a listing operation.
pub fn file_ls(dir: &str) -> (r: Result<NativeString, MarshalError>)
    ensures
        r is Ok <==> !dir@.contains('\0'),
        r is Ok ==> r->Ok_0@ == spec_to_native(dir@),
        r is Err ==> r->Err_0 == MarshalError::InteriorNul,
{
    to_native(dir)
}

/// Marshal the path of a directory-creation operation; the mode passes
/// through unmarshalled.
pub fn file_mkdir(path: &str) -> (r: Result<NativeString, MarshalError>)
    ensures
        r is Ok <==> !path@.contains('\0'),
        r is Ok ==> r->Ok_0@ == spec_to_native(path@),
        r is Err ==> r->Err_0 == MarshalError::InteriorNul,
{
    to_native(path)
}

/// Marshal the source and destination paths of a move operation.
pub fn file_move(source: &str, dest: &str) -> (r: Result<
    (NativeString, NativeString),
    MarshalError,
>)
    ensures
        r is Ok <==> !source@.contains('\0') && !dest@.contains('\0'),
        r is Ok ==> r->Ok_0.0@ == spec_to_native(source@) && r->Ok_0.1@ == spec_to_native(dest@),
        r is Err ==> r->Err_0 == MarshalError::InteriorNul,
{
    let s = match to_native(source) {
        Ok(s) => s,
        Err(e) => {
            return Err(e);
        },
    };
    match to_native(dest) {
        Ok(d) => Ok((s, d)),
        Err(e) => Err(e),
    }
}

/// Marshal the source and destination paths of a copy operation.
pub fn file_copy(source: &str, dest: &str) -> (r: Result<
    (NativeString, NativeString),
    MarshalError,
>)
    ensures
        r is Ok <==> !source@.contains('\0') && !dest@.contains('\0'),
        r is Ok ==> r->Ok_0.0@ == spec_to_native(source@) && r->Ok_0.1@ == spec_to_native(dest@),
        r is Err ==> r->Err_0 == MarshalError::InteriorNul,
{
    let s = match to_native(source) {
        Ok(s) => s,
        Err(e) => {
            return Err(e);
        },
    };
    match to_native(dest) {
        Ok(d) => Ok((s, d)),
        Err(e) => Err(e),
    }
}

} // verus!
