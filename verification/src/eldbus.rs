//! The message-bus module: shared, natively reference-counted handles for
//! connections, objects and proxies, and the marshalling around proxy calls
//! and message inspection.
//!
//! Connections, objects and proxies are owned by the native library and
//! live by its reference count; the wrappers here only mirror that count —
//! one `ref` per acquisition or clone, one `unref` per drop, never a direct
//! destroy.  Message error details arrive as optional NUL-terminated
//! buffers; absent ones are surfaced as absent values, never dereferenced.

use crate::eina::EinaBool;
use crate::eo::{RefLedger, SharedHandle};
use crate::eseful::{
    from_eina_to_bool, from_native_lossy, lossy_utf8, nul_prefix, spec_eina_to_bool,
    spec_to_native, to_native, MarshalError, NativeString,
};
use vstd::prelude::*;

verus! {

/// Tag for a connection to the message-bus daemon.
pub enum EldbusConnection {
    Opaque,
}

/// Tag for an object path attached to a bus name.
pub enum EldbusObject {
    Opaque,
}

/// Tag for an interface proxy of an object.
pub enum EldbusProxy {
    Opaque,
}

/// Tag for a message travelling over the bus.
pub enum EldbusMessage {
    Opaque,
}

/// Tag for a sent message that has not reached its destination yet.
pub enum EldbusPending {
    Opaque,
}

/// The kinds of connection the daemon offers; the first and last entries
/// are sentinels of the native enumeration.
#[derive(Clone, Copy, Debug, PartialEq, Eq, Structural)]
pub enum EldbusConnectionType {
    EldbusConnectionTypeUnknown,
    EldbusConnectionTypeSession,
    EldbusConnectionTypeSystem,
    EldbusConnectionTypeStarter,
    EldbusConnectionTypeAddress,
    EldbusConnectionTypeLast,
}

/// The number the native enumeration assigns to each connection type.
pub open spec fn spec_connection_type_raw(t: EldbusConnectionType) -> u32 {
    match t {
        EldbusConnectionType::EldbusConnectionTypeUnknown => 0,
        EldbusConnectionType::EldbusConnectionTypeSession => 1,
        EldbusConnectionType::EldbusConnectionTypeSystem => 2,
        EldbusConnectionType::EldbusConnectionTypeStarter => 3,
        EldbusConnectionType::EldbusConnectionTypeAddress => 4,
        EldbusConnectionType::EldbusConnectionTypeLast => 5,
    }
}

impl EldbusConnectionType {
    /// The number handed to the native connection call for this type.
    pub fn to_raw(&self) -> (r: u32)
        ensures
            r == spec_connection_type_raw(*self),
    {
        match self {
            EldbusConnectionType::EldbusConnectionTypeUnknown => 0,
            EldbusConnectionType::EldbusConnectionTypeSession => 1,
            EldbusConnectionType::EldbusConnectionTypeSystem => 2,
            EldbusConnectionType::EldbusConnectionTypeStarter => 3,
            EldbusConnectionType::EldbusConnectionTypeAddress => 4,
            EldbusConnectionType::EldbusConnectionTypeLast => 5,
        }
    }
}

/// Wrap the connection the native acquisition call returned: the native
/// side hands it over with one reference taken, recorded here; null means
/// no connection and records nothing.
pub fn connection_get(raw: usize, ledger: &mut RefLedger) -> (r: Option<
    SharedHandle<EldbusConnection>,
>)
    requires
        old(ledger).refs() < u64::MAX,
        old(ledger).live() < u64::MAX,
    ensures
        r is Some <==> raw != 0,
        raw == 0 ==> *final(ledger) == *old(ledger),
        raw != 0 ==> r->0.addr() == raw && final(ledger).refs() == old(ledger).refs() + 1
            && final(ledger).live() == old(ledger).live() + 1 && final(ledger).unrefs() == old(
            ledger,
        ).unrefs(),
        old(ledger).balanced() ==> final(ledger).balanced(),
{
    SharedHandle::acquire(raw, ledger)
}

/// Marshal the bus name and object path for the native object lookup.
pub fn object_get_args(bus: &str, path: &str) -> (r: Result<
    (NativeString, NativeString),
    MarshalError,
>)
    ensures
        r is Ok <==> !bus@.contains('\0') && !path@.contains('\0'),
        r is Ok ==> r->Ok_0.0@ == spec_to_native(bus@) && r->Ok_0.1@ == spec_to_native(path@),
        r is Err ==> r->Err_0 == MarshalError::InteriorNul,
{
    let b = match to_native(bus) {
        Ok(b) => b,
        Err(e) => {
            return Err(e);
        },
    };
    match to_native(path) {
        Ok(p) => Ok((b, p)),
        Err(e) => Err(e),
    }
}

/// Wrap the object the native lookup returned, recording the reference the
/// native side took for it; null is surfaced as absent.
pub fn object_get(raw: usize, ledger: &mut RefLedger) -> (r: Option<SharedHandle<EldbusObject>>)
    requires
        old(ledger).refs() < u64::MAX,
        old(ledger).live() < u64::MAX,
    ensures
        r is Some <==> raw != 0,
        raw == 0 ==> *final(ledger) == *old(ledger),
        raw != 0 ==> r->0.addr() == raw && final(ledger).refs() == old(ledger).refs() + 1
            && final(ledger).live() == old(ledger).live() + 1 && final(ledger).unrefs() == old(
            ledger,
        ).unrefs(),
        old(ledger).balanced() ==> final(ledger).balanced(),
{
    SharedHandle::acquire(raw, ledger)
}

/// Wrap the interface proxy the native lookup returned, recording the
/// reference the native side took for it; null is surfaced as absent.
pub fn proxy_get(raw: usize, ledger: &mut RefLedger) -> (r: Option<SharedHandle<EldbusProxy>>)
    requires
        old(ledger).refs() < u64::MAX,
        old(ledger).live() < u64::MAX,
    ensures
        r is Some <==> raw != 0,
        raw == 0 ==> *final(ledger) == *old(ledger),
        raw != 0 ==> r->0.addr() == raw && final(ledger).refs() == old(ledger).refs() + 1
            && final(ledger).live() == old(ledger).live() + 1 && final(ledger).unrefs() == old(
            ledger,
        ).unrefs(),
        old(ledger).balanced() ==> final(ledger).balanced(),
{
    SharedHandle::acquire(raw, ledger)
}

/// Give a connection wrapper up: one native `unref` is recorded and owed on
/// the returned address — never a destroy.
pub fn connection_unref(conn: SharedHandle<EldbusConnection>, ledger: &mut RefLedger) -> (a: usize)
    requires
        old(ledger).live() > 0,
        old(ledger).unrefs() < u64::MAX,
    ensures
        a == conn.addr(),
        final(ledger).unrefs() == old(ledger).unrefs() + 1,
        final(ledger).live() == old(ledger).live() - 1,
        final(ledger).refs() == old(ledger).refs(),
        old(ledger).balanced() ==> final(ledger).balanced(),
{
    conn.unref(ledger)
}

/// Give an object wrapper up: one native `unref` is recorded and owed.
pub fn object_unref(obj: SharedHandle<EldbusObject>, ledger: &mut RefLedger) -> (a: usize)
    requires
        old(ledger).live() > 0,
        old(ledger).unrefs() < u64::MAX,
    ensures
        a == obj.addr(),
        final(ledger).unrefs() == old(ledger).unrefs() + 1,
        final(ledger).live() == old(ledger).live() - 1,
        final(ledger).refs() == old(ledger).refs(),
        old(ledger).balanced() ==> final(ledger).balanced(),
{
    obj.unref(ledger)
}

/// Give a proxy wrapper up: one native `unref` is recorded and owed.
pub fn proxy_unref(proxy: SharedHandle<EldbusProxy>, ledger: &mut RefLedger) -> (a: usize)
    requires
        old(ledger).live() > 0,
        old(ledger).unrefs() < u64::MAX,
    ensures
        a == proxy.addr(),
        final(ledger).unrefs() == old(ledger).unrefs() + 1,
        final(ledger).live() == old(ledger).live() - 1,
        final(ledger).refs() == old(ledger).refs(),
        old(ledger).balanced() ==> final(ledger).balanced(),
{
    proxy.unref(ledger)
}

/// Marshal the member name and argument signature of a proxy method call;
/// the timeout and the argument values pass through unmarshalled on the
/// fixed-arity convenience path.
pub fn proxy_call(member: &str, signature: &str) -> (r: Result<
    (NativeString, NativeString),
    MarshalError,
>)
    ensures
        r is Ok <==> !member@.contains('\0') && !signature@.contains('\0'),
        r is Ok ==> r->Ok_0.0@ == spec_to_native(member@) && r->Ok_0.1@ == spec_to_native(
            signature@,
        ),
        r is Err ==> r->Err_0 == MarshalError::InteriorNul,
{
    let m = match to_native(member) {
        Ok(m) => m,
        Err(e) => {
            return Err(e);
        },
    };
    match to_native(signature) {
        Ok(s) => Ok((m, s)),
        Err(e) => Err(e),
    }
}

/// Marshal the argument signature for reading values out of a message, and
/// turn the native truth value that came back into a `bool`.
pub fn message_arguments_get(signature: &str, got: EinaBool) -> (r: Result<bool, MarshalError>)
    ensures
        r is Ok <==> !signature@.contains('\0'),
        r is Ok ==> r->Ok_0 == spec_eina_to_bool(got),
        r is Err ==> r->Err_0 == MarshalError::InteriorNul,
{
    match to_native(signature) {
        Ok(_) => Ok(from_eina_to_bool(got)),
        Err(e) => Err(e),
    }
}

/// Decode a message's error report.  The native call answers whether the
/// message is an error and, where the caller asked and the native side had
/// one, a NUL-terminated buffer each for the error name and the error text.
/// An absent buffer stays absent — it is never dereferenced — and a present
/// one is decoded best-effort, as the display-only conversion documents.
pub fn message_error_get(got: EinaBool, name_buf: Option<Vec<u8>>, text_buf: Option<Vec<u8>>) -> (r:
    (bool, Option<String>, Option<String>))
    requires
        name_buf is Some ==> name_buf->0@.contains(0),
        text_buf is Some ==> text_buf->0@.contains(0),
    ensures
        r.0 == spec_eina_to_bool(got),
        match name_buf {
            Option::Some(b) => r.1 is Some && r.1->0@ == lossy_utf8(nul_prefix(b@)),
            Option::None => r.1 is None,
        },
        match text_buf {
            Option::Some(b) => r.2 is Some && r.2->0@ == lossy_utf8(nul_prefix(b@)),
            Option::None => r.2 is None,
        },
{
    let is_error = from_eina_to_bool(got);
    let name = match &name_buf {
        Some(b) => Some(from_native_lossy(b.as_slice())),
        None => None,
    };
    let text = match &text_buf {
        Some(b) => Some(from_native_lossy(b.as_slice())),
        None => None,
    };
    (is_error, name, text)
}

} // verus!
