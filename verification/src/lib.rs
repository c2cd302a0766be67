//! Safe, verified marshalling core for bindings to a native C
//! windowing/multimedia toolkit.
//!
//! The native libraries speak an unstructured, type-erased C convention:
//! `void*` user data, bare function pointers, ref-counted opaque handles and
//! manually managed lists and hash tables.  This crate holds the logic of the
//! bridge between that convention and typed, ownership-safe code: the
//! erased-payload carrier, the callback trampolines, the owning and shared
//! handle wrappers, the collection bridges and the string marshalling, each
//! with a proved contract.  The raw `extern "C"` calls themselves stay outside
//! the crate; they exchange plain values (addresses, status codes, byte
//! buffers) with the functions here.

pub mod ecore;
pub mod eet;
pub mod eina;
pub mod eio;
pub mod eldbus;
pub mod elementary;
pub mod eo;
pub mod eseful;
pub mod evas;
