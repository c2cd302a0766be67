use efl::eet::{close, open, read, EetError, EetFileMode};
use efl::eo::DestroyLog;

#[test]
fn file_mode_raw_numbers() {
    assert_eq!(EetFileMode::EetFileModeRead.to_raw(), 0);
    assert_eq!(EetFileMode::EetFileModeWrite.to_raw(), 1);
    assert_eq!(EetFileMode::EetFileModeReadWrite.to_raw(), 2);
}

#[test]
fn error_decoding_exact() {
    assert_eq!(EetError::from_u32(0), Some(EetError::EetErrorNone));
    assert_eq!(EetError::from_u32(3), Some(EetError::EetErrorNotWritable));
    assert_eq!(EetError::from_u32(9), Some(EetError::EetErrorWriteErrorFileClosed));
    assert_eq!(EetError::from_u32(18), Some(EetError::EetErrorDecryptFailed));
    // an unknown status is an absent value, not a panic
    assert_eq!(EetError::from_u32(19), None);
    assert_eq!(EetError::from_u32(u32::MAX), None);
}

#[test]
fn open_refuses_null() {
    assert!(open(0, EetFileMode::EetFileModeRead).is_none());
}

#[test]
fn open_close_destroys_once() {
    let ef = open(0x500, EetFileMode::EetFileModeReadWrite).unwrap();
    assert_eq!(ef.as_raw(), 0x500);
    assert_eq!(ef.mode(), EetFileMode::EetFileModeReadWrite);
    let mut log = DestroyLog::new();
    let addr = close(ef, &mut log);
    assert_eq!(addr, 0x500);
    assert_eq!(log.len(), 1);
    assert_eq!(log.entry(0), 0x500);
}

#[test]
fn read_wraps_native_buffer() {
    let ef = open(0x501, EetFileMode::EetFileModeRead).unwrap();
    let value = read(&ef, Some(vec![1u8, 2, 3])).unwrap();
    assert_eq!(value.get_val().as_slice(), &[1, 2, 3]);
    assert_eq!(value.into_val(), vec![1, 2, 3]);
    // a missing entry comes back as a null buffer, surfaced as absent
    assert!(read(&ef, None).is_none());
}
