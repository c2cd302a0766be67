//! The archive-file module: the owning wrapper around a native file handle
//! and the decoding of the native status codes.
//!
//! A native archive file follows an open/read-or-write/close protocol.  The
//! wrapper here owns the handle the native open returned, remembers the mode
//! it was opened in, and is consumed by `close`, which records the one
//! native close owed on it.  A buffer a read hands back is owned by the
//! caller and must go back to the native allocator, so it travels inside an
//! owning value of its own.

use crate::eo::DestroyLog;
use vstd::prelude::*;

verus! {

/// Modes a file can be opened in.
#[derive(Clone, Copy, Debug, PartialEq, Eq, Structural)]
pub enum EetFileMode {
    /// File is read-only.
    EetFileModeRead,
    /// File is write-only.
    EetFileModeWrite,
    /// File is for both read and write.
    EetFileModeReadWrite,
}

/// The number the native enumeration assigns to each mode.
pub open spec fn spec_file_mode_raw(m: EetFileMode) -> u32 {
    match m {
        EetFileMode::EetFileModeRead => 0,
        EetFileMode::EetFileModeWrite => 1,
        EetFileMode::EetFileModeReadWrite => 2,
    }
}

impl EetFileMode {
    /// The number handed to the native open call for this mode.
    pub fn to_raw(&self) -> (r: u32)
        ensures
            r == spec_file_mode_raw(*self),
    {
        match self {
            EetFileMode::EetFileModeRead => 0,
            EetFileMode::EetFileModeWrite => 1,
            EetFileMode::EetFileModeReadWrite => 2,
        }
    }
}

/// The status codes the native library reports.
#[derive(Clone, Copy, Debug, PartialEq, Eq, Structural)]
pub enum EetError {
    EetErrorNone,
    EetErrorBadObject,
    EetErrorEmpty,
    EetErrorNotWritable,
    EetErrorOutOfMemory,
    EetErrorWriteError,
    EetErrorWriteErrorFileTooBig,
    EetErrorWriteErrorIOError,
    EetErrorWriteErrorOutOfSpace,
    EetErrorWriteErrorFileClosed,
    EetErrorMmapFailed,
    EetErrorX509EncodingFailed,
    EetErrorSignatureFailed,
    EetErrorInvalidSignature,
    EetErrorNotSigned,
    EetErrorNotImplemented,
    EetErrorPrngNotSeeded,
    EetErrorEncryptFailed,
    EetErrorDecryptFailed,
}

/// The status code each number decodes to, if any.
pub open spec fn spec_eet_error_from_u32(v: u32) -> Option<EetError> {
    if v == 0 {
        Some(EetError::EetErrorNone)
    } else if v == 1 {
        Some(EetError::EetErrorBadObject)
    } else if v == 2 {
        Some(EetError::EetErrorEmpty)
    } else if v == 3 {
        Some(EetError::EetErrorNotWritable)
    } else if v == 4 {
        Some(EetError::EetErrorOutOfMemory)
    } else if v == 5 {
        Some(EetError::EetErrorWriteError)
    } else if v == 6 {
        Some(EetError::EetErrorWriteErrorFileTooBig)
    } else if v == 7 {
        Some(EetError::EetErrorWriteErrorIOError)
    } else if v == 8 {
        Some(EetError::EetErrorWriteErrorOutOfSpace)
    } else if v == 9 {
        Some(EetError::EetErrorWriteErrorFileClosed)
    } else if v == 10 {
        Some(EetError::EetErrorMmapFailed)
    } else if v == 11 {
        Some(EetError::EetErrorX509EncodingFailed)
    } else if v == 12 {
        Some(EetError::EetErrorSignatureFailed)
    } else if v == 13 {
        Some(EetError::EetErrorInvalidSignature)
    } else if v == 14 {
        Some(EetError::EetErrorNotSigned)
    } else if v == 15 {
        Some(EetError::EetErrorNotImplemented)
    } else if v == 16 {
        Some(EetError::EetErrorPrngNotSeeded)
    } else if v == 17 {
        Some(EetError::EetErrorEncryptFailed)
    } else if v == 18 {
        Some(EetError::EetErrorDecryptFailed)
    } else {
        None
    }
}

impl EetError {
    /// Decode a native status number; an unknown number is an absent value,
    /// not a panic.
    pub fn from_u32(v: u32) -> (r: Option<EetError>)
        ensures
            r == spec_eet_error_from_u32(v),
    {
        match v {
            0 => Some(EetError::EetErrorNone),
            1 => Some(EetError::EetErrorBadObject),
            2 => Some(EetError::EetErrorEmpty),
            3 => Some(EetError::EetErrorNotWritable),
            4 => Some(EetError::EetErrorOutOfMemory),
            5 => Some(EetError::EetErrorWriteError),
            6 => Some(EetError::EetErrorWriteErrorFileTooBig),
            7 => Some(EetError::EetErrorWriteErrorIOError),
            8 => Some(EetError::EetErrorWriteErrorOutOfSpace),
            9 => Some(EetError::EetErrorWriteErrorFileClosed),
            10 => Some(EetError::EetErrorMmapFailed),
            11 => Some(EetError::EetErrorX509EncodingFailed),
            12 => Some(EetError::EetErrorSignatureFailed),
            13 => Some(EetError::EetErrorInvalidSignature),
            14 => Some(EetError::EetErrorNotSigned),
            15 => Some(EetError::EetErrorNotImplemented),
            16 => Some(EetError::EetErrorPrngNotSeeded),
            17 => Some(EetError::EetErrorEncryptFailed),
            18 => Some(EetError::EetErrorDecryptFailed),
            _ => None,
        }
    }
}

/// Exclusive ownership of one open native archive file, with the mode it
/// was opened in.
pub struct EetFile {
    handle: usize,
    mode: EetFileMode,
}

impl EetFile {
    /// The native file handle.
    pub closed spec fn addr(self) -> usize {
        self.handle
    }

    /// The mode the file was opened in.
    pub closed spec fn spec_mode(self) -> EetFileMode {
        self.mode
    }

    /// The handle, for native calls that inspect or use the open file.
    pub fn as_raw(&self) -> (a: usize)
        ensures
            a == self.addr(),
    {
        self.handle
    }

    /// The mode, for callers that must not write to a read-only file.
    pub fn mode(&self) -> (m: EetFileMode)
        ensures
            m == self.spec_mode(),
    {
        self.mode
    }
}

/// Wrap the handle a native open returned, remembering the mode.  The
/// native open reports failure — file absent, not an archive — as a null
/// handle, surfaced here as an absent value.
pub fn open(raw: usize, mode: EetFileMode) -> (r: Option<EetFile>)
    ensures
        r is Some <==> raw != 0,
        r is Some ==> r->0.addr() == raw && r->0.spec_mode() == mode,
{
    if raw == 0 {
        None
    } else {
        Some(EetFile { handle: raw, mode })
    }
}

/// Close the file: the wrapper is consumed, exactly one native close of its
/// handle is recorded, and the handle is returned for the native call.  The
/// status the native close then reports decodes via [`EetError::from_u32`].
pub fn close(ef: EetFile, log: &mut DestroyLog) -> (a: usize)
    requires
        old(log)@.len() < usize::MAX,
    ensures
        a == ef.addr(),
        final(log)@ == old(log)@.push(a),
{
    let a = ef.handle;
    crate::eo::record_destroy(log, a);
    a
}

/// A value a native read handed back: the caller owns it, and it must be
/// given back to the native allocator, not freed by other means — so it
/// travels inside this wrapper until it is used.
pub struct EetValue<T> {
    value: T,
}

impl<T> EetValue<T> {
    /// The value carried.
    pub closed spec fn spec_val(self) -> T {
        self.value
    }

    /// Borrow the value read from the file.
    pub fn get_val(&self) -> (r: &T)
        ensures
            *r == self.spec_val(),
    {
        &self.value
    }

    /// Give the value up entirely.
    pub fn into_val(self) -> (r: T)
        ensures
            r == self.spec_val(),
    {
        self.value
    }
}

/// Wrap what a native read handed back: a null buffer — no such entry, or a
/// write-only file — is surfaced as an absent value, anything else as an
/// owned [`EetValue`].
pub fn read(ef: &EetFile, data: Option<Vec<u8>>) -> (r: Option<EetValue<Vec<u8>>>)
    requires
        ef.spec_mode() != EetFileMode::EetFileModeWrite,
    ensures
        r is Some <==> data is Some,
        data is Some ==> r->0.spec_val()@ == data->0@,
{
    match data {
        Some(buf) => Some(EetValue { value: buf }),
        None => None,
    }
}

} // verus!
