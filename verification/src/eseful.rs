//! Utilities shared by every module of the bindings: the truth-value
//! marshalling between Rust `bool` and the native `Eina_Bool` byte, the
//! erased-payload carrier that smuggles a typed value across the C boundary
//! as an address-sized token, the string marshalling between Rust strings
//! and NUL-terminated native buffers, and the per-module init/shutdown
//! counter.

use crate::eina::{EinaBool, EINA_FALSE, EINA_TRUE};
use vstd::prelude::*;
use vstd::utf8::{decode_utf8, encode_scalar, encode_utf8, valid_utf8};

verus! {

/// Handy empty payload for registrations that carry no data.
pub const EMPTY: Option<()> = None;

/// Opaque per-event information as the native side hands it over; the typed
/// decodings live with each event kind.
pub struct EventInfo;

/// The native byte for a Rust `bool`.
pub open spec fn spec_bool_to_eina(b: bool) -> EinaBool {
    if b {
        EINA_TRUE
    } else {
        EINA_FALSE
    }
}

/// The Rust `bool` for a native byte: the native side treats every non-zero
/// byte as true, but only ever produces `1`.
pub open spec fn spec_eina_to_bool(eb: EinaBool) -> bool {
    eb == EINA_TRUE
}

pub fn from_bool_to_eina(b: bool) -> (r: EinaBool)
    ensures
        r == spec_bool_to_eina(b),
{
    match b {
        true => EINA_TRUE,
        false => EINA_FALSE,
    }
}

pub fn from_eina_to_bool(eb: EinaBool) -> (r: bool)
    ensures
        r == spec_eina_to_bool(eb),
{
    match eb {
        EINA_TRUE => true,
        _ => false,
    }
}

/// Round trip through the native truth value: a `bool` marshalled out and
/// back is unchanged.
pub proof fn lemma_bool_round_trip(b: bool)
    ensures
        spec_eina_to_bool(spec_bool_to_eina(b)) == b,
{
}

/// The erased-payload carrier.
///
/// A registration call hands the native side a single address under which a
/// typed value hides; the native side hands the same address back to the
/// trampoline.  This wrapper stands for that address: the payload is boxed so
/// it has one stable home, and nothing but [`recover`] and [`take`] can look
/// inside.  The type parameter is the tag that makes the token meaningful;
/// recovering under any other type is impossible here, where the unchecked C
/// convention merely forbade it.
pub struct OpaqueHandle<T> {
    payload: Box<T>,
}

impl<T> OpaqueHandle<T> {
    /// The value this token stands for.
    pub closed spec fn value(self) -> T {
        *self.payload
    }
}

/// The token [`store`] builds for a value.
pub closed spec fn spec_store<T>(value: T) -> OpaqueHandle<T> {
    OpaqueHandle { payload: Box::new(value) }
}

/// Consume a typed value and produce the opaque token that will travel
/// through native code as a bare address.
pub fn store<T>(value: T) -> (h: OpaqueHandle<T>)
    ensures
        h == spec_store(value),
        h.value() == value,
{
    OpaqueHandle { payload: Box::new(value) }
}

/// Borrow the typed value back out of a token, as a trampoline does while
/// the registration stays alive.
pub fn recover<T>(h: &OpaqueHandle<T>) -> (r: &T)
    ensures
        *r == h.value(),
{
    &h.payload
}

/// Take the typed value back out of a token, giving up the registration.
pub fn take<T>(h: OpaqueHandle<T>) -> (r: T)
    ensures
        r == h.value(),
{
    *h.payload
}

/// Round trip through the carrier: storing a value and recovering it under
/// the same type yields the value unchanged.
pub proof fn lemma_carrier_round_trip<T>(value: T)
    ensures
        spec_store(value).value() == value,
{
}

/// A NUL-terminated byte buffer ready for the native side: the UTF-8 bytes
/// of a Rust string followed by one terminating zero, with no zero anywhere
/// else.  It lives for the duration of the call it is built for; the one
/// documented exception, the process-argument vector the native side retains,
/// is handed over explicitly by the unverified caller.
#[derive(Debug)]
pub struct NativeString {
    bytes: Vec<u8>,
}

impl NativeString {
    /// The bytes of the buffer, terminator included.
    pub closed spec fn view(self) -> Seq<u8> {
        self.bytes@
    }

    /// Well-formed: non-empty, zero exactly at the end.
    pub open spec fn wf(self) -> bool {
        &&& self@.len() > 0
        &&& self@.last() == 0
        &&& forall|i: int| 0 <= i < self@.len() - 1 ==> self@[i] != 0
    }

    /// Borrow the buffer to hand its address to a native call.
    pub fn as_bytes(&self) -> (b: &[u8])
        ensures
            b@ == self@,
    {
        self.bytes.as_slice()
    }

    /// Give the buffer up, e.g. to leak it deliberately where the native
    /// side retains the address past the call.
    pub fn into_bytes(self) -> (b: Vec<u8>)
        ensures
            b@ == self@,
    {
        self.bytes
    }
}

/// The buffer [`to_native`] builds for a string: its UTF-8 bytes plus the
/// terminator.
pub open spec fn spec_to_native(s: Seq<char>) -> Seq<u8> {
    encode_utf8(s).push(0)
}

/// The index of the first zero byte.
pub open spec fn first_nul(bytes: Seq<u8>) -> int
    decreases bytes.len(),
{
    if bytes.len() == 0 {
        0
    } else if bytes[0] == 0 {
        0
    } else {
        1 + first_nul(bytes.drop_first())
    }
}

/// The bytes before the first zero: what a native NUL-terminated buffer
/// means.
pub open spec fn nul_prefix(bytes: Seq<u8>) -> Seq<u8> {
    bytes.subrange(0, if first_nul(bytes) <= bytes.len() {
        first_nul(bytes)
    } else {
        bytes.len() as int
    })
}

/// The string [`from_native`] reads out of a buffer: the decoding of the
/// bytes before the first zero, if they are valid UTF-8.
pub open spec fn spec_from_native(bytes: Seq<u8>) -> Option<Seq<char>> {
    if valid_utf8(nul_prefix(bytes)) {
        Some(decode_utf8(nul_prefix(bytes)))
    } else {
        None
    }
}

/// `first_nul` is indeed the first: it is characterized by holding zero
/// with nothing but non-zero bytes before it.
proof fn lemma_first_nul_characterization(bytes: Seq<u8>, i: int)
    requires
        0 <= i < bytes.len(),
        bytes[i] == 0,
        forall|j: int| 0 <= j < i ==> bytes[j] != 0,
    ensures
        first_nul(bytes) == i,
    decreases bytes.len(),
{
    if bytes[0] != 0 {
        lemma_first_nul_characterization(bytes.drop_first(), i - 1);
    }
}

/// A single character's encoding holds a zero byte exactly when the
/// character is NUL itself: the one-byte encoding is the scalar value, and
/// every byte of a longer encoding has its high bit set.
proof fn lemma_encode_scalar_nul(c: char)
    ensures
        encode_scalar(c as u32).contains(0) <==> c == '\0',
{
    vstd::utf8::char_is_scalar(c);
    let scalar = c as u32;
    let enc = encode_scalar(scalar);
    assert(('\0' as u32) == 0);
    if c == '\0' {
        assert((0u32 & 0x7F) as u8 == 0) by (bit_vector);
        assert(enc[0] == 0);
        assert(enc.contains(0));
    } else {
        assert(scalar != 0) by {
            if scalar == 0 {
                vstd::utf8::char_u32_cast(c, scalar);
                vstd::utf8::char_u32_cast('\0', 0u32);
            }
        }
        if vstd::utf8::has_width_1_encoding(scalar) {
            assert(scalar <= 0x7F && scalar != 0 ==> ((scalar & 0x7F) as u8) != 0) by (bit_vector);
            assert(forall|k: int| 0 <= k < enc.len() ==> enc[k] != 0);
        } else if vstd::utf8::has_width_2_encoding(scalar) {
            assert((0xC0 | ((scalar >> 6) & 0x1F) as u8) != 0) by (bit_vector);
            assert((0x80 | (scalar & 0x3F) as u8) != 0) by (bit_vector);
            assert(forall|k: int| 0 <= k < enc.len() ==> enc[k] != 0);
        } else if vstd::utf8::has_width_3_encoding(scalar) {
            assert((0xE0 | ((scalar >> 12) & 0x0F) as u8) != 0) by (bit_vector);
            assert((0x80 | ((scalar >> 6) & 0x3F) as u8) != 0) by (bit_vector);
            assert((0x80 | (scalar & 0x3F) as u8) != 0) by (bit_vector);
            assert(forall|k: int| 0 <= k < enc.len() ==> enc[k] != 0);
        } else {
            assert((0xF0 | ((scalar >> 18) & 0x7) as u8) != 0) by (bit_vector);
            assert((0x80 | ((scalar >> 12) & 0x3F) as u8) != 0) by (bit_vector);
            assert((0x80 | ((scalar >> 6) & 0x3F) as u8) != 0) by (bit_vector);
            assert((0x80 | (scalar & 0x3F) as u8) != 0) by (bit_vector);
            assert(forall|k: int| 0 <= k < enc.len() ==> enc[k] != 0);
        }
        assert(!enc.contains(0));
    }
}

/// The UTF-8 bytes of a string hold a zero exactly where the string holds a
/// NUL character.
pub proof fn lemma_nul_byte_iff_nul_char(s: Seq<char>)
    ensures
        encode_utf8(s).contains(0) <==> s.contains('\0'),
    decreases s.len(),
{
    if s.len() == 0 {
    } else {
        lemma_encode_scalar_nul(s[0]);
        lemma_nul_byte_iff_nul_char(s.drop_first());
        let head = encode_scalar(s[0] as u32);
        let tail = encode_utf8(s.drop_first());
        assert(encode_utf8(s) == head + tail);
        if s.contains('\0') {
            if s[0] == '\0' {
                assert(head.contains(0));
                let k = choose|k: int| 0 <= k < head.len() && head[k] == 0;
                assert((head + tail)[k] == 0);
            } else {
                let k = choose|k: int| 0 <= k < s.len() && s[k] == '\0';
                assert(s.drop_first()[k - 1] == '\0');
                assert(s.drop_first().contains('\0'));
                let j = choose|j: int| 0 <= j < tail.len() && tail[j] == 0;
                assert((head + tail)[head.len() + j] == 0);
            }
        }
        if encode_utf8(s).contains(0) {
            let k = choose|k: int| 0 <= k < encode_utf8(s).len() && encode_utf8(s)[k] == 0;
            if k < head.len() {
                assert(head[k] == 0);
                assert(s[0] == '\0');
            } else {
                assert(tail[k - head.len()] == 0);
                assert(tail.contains(0));
                let j = choose|j: int| 0 <= j < s.drop_first().len() && s.drop_first()[j] == '\0';
                assert(s[j + 1] == '\0');
            }
        }
    }
}

/// Marshal a string for the native side: its UTF-8 bytes with a
/// terminating zero.  A string holding an interior NUL cannot cross — the
/// native side would silently truncate it — and is refused.
pub fn to_native(s: &str) -> (r: Result<NativeString, MarshalError>)
    ensures
        r is Ok <==> !s@.contains('\0'),
        r is Ok ==> r->Ok_0@ == spec_to_native(s@) && r->Ok_0.wf(),
        r is Err ==> r->Err_0 == MarshalError::InteriorNul,
{
    proof {
        lemma_nul_byte_iff_nul_char(s@);
    }
    let raw = s.as_bytes();
    let mut bytes: Vec<u8> = Vec::new();
    let mut i: usize = 0;
    while i < raw.len()
        invariant
            i <= raw.len(),
            raw@ == encode_utf8(s@),
            bytes@ == raw@.subrange(0, i as int),
            forall|j: int| 0 <= j < i ==> raw@[j] != 0,
        decreases raw.len() - i,
    {
        let b = raw[i];
        if b == 0 {
            proof {
                assert(raw@[i as int] == 0);
                assert(raw@.contains(0));
                lemma_nul_byte_iff_nul_char(s@);
            }
            return Err(MarshalError::InteriorNul);
        }
        bytes.push(b);
        i = i + 1;
    }
    assert(bytes@ =~= encode_utf8(s@));
    bytes.push(0);
    assert(bytes@ =~= spec_to_native(s@));
    Ok(NativeString { bytes })
}

/// Read a string back from a native NUL-terminated buffer: the bytes before
/// the first zero are decoded as UTF-8, and bytes that are not valid UTF-8
/// are an explicit error, never a silent substitution.
pub fn from_native(buf: &[u8]) -> (r: Result<String, MarshalError>)
    requires
        buf@.contains(0),
    ensures
        r is Ok <==> spec_from_native(buf@) is Some,
        r is Ok ==> Some(r->Ok_0@) == spec_from_native(buf@),
        r is Err ==> r->Err_0 == MarshalError::InvalidEncoding,
{
    let prefix = scan_to_nul(buf);
    match utf8_to_string(prefix) {
        Some(s) => Ok(s),
        None => Err(MarshalError::InvalidEncoding),
    }
}

/// Relies on `String::from_utf8`: the bytes decode to exactly the string's
/// characters when they are valid UTF-8, and to an error otherwise.
#[verifier::external_body]
fn utf8_to_string(bytes: Vec<u8>) -> (r: Option<String>)
    ensures
        r is Some <==> valid_utf8(bytes@),
        r is Some ==> r->0@ == decode_utf8(bytes@),
{
    String::from_utf8(bytes).ok()
}

/// What the best-effort UTF-8 decoding makes of a byte sequence; it depends
/// on the bytes alone.
pub uninterp spec fn lossy_utf8(bytes: Seq<u8>) -> Seq<char>;

/// Relies on `String::from_utf8_lossy`: the result is a function of the
/// bytes alone, and bytes that are valid UTF-8 decode to exactly their
/// characters.
#[verifier::external_body]
fn utf8_to_string_lossy(bytes: &[u8]) -> (r: String)
    ensures
        r@ == lossy_utf8(bytes@),
        valid_utf8(bytes@) ==> r@ == decode_utf8(bytes@),
{
    String::from_utf8_lossy(bytes).into_owned()
}

/// Read a string from a native NUL-terminated buffer for display only:
/// bytes that are not valid UTF-8 are substituted, the documented
/// best-effort conversion, never an error.
pub fn from_native_lossy(buf: &[u8]) -> (r: String)
    requires
        buf@.contains(0),
    ensures
        r@ == lossy_utf8(nul_prefix(buf@)),
        valid_utf8(nul_prefix(buf@)) ==> r@ == decode_utf8(nul_prefix(buf@)),
{
    let prefix = scan_to_nul(buf);
    utf8_to_string_lossy(prefix.as_slice())
}

/// Copy the bytes of a native buffer up to its first zero.
fn scan_to_nul(buf: &[u8]) -> (prefix: Vec<u8>)
    requires
        buf@.contains(0),
    ensures
        prefix@ == nul_prefix(buf@),
{
    let mut prefix: Vec<u8> = Vec::new();
    let mut i: usize = 0;
    let n = buf.len();
    while i < n
        invariant
            i <= n,
            n == buf@.len(),
            prefix@ == buf@.subrange(0, i as int),
            forall|j: int| 0 <= j < i ==> buf@[j] != 0,
        ensures
            i <= n,
            prefix@ == buf@.subrange(0, i as int),
            forall|j: int| 0 <= j < i ==> buf@[j] != 0,
            i == n || buf@[i as int] == 0,
        decreases n - i,
    {
        let b = buf[i];
        if b == 0 {
            break;
        }
        prefix.push(b);
        i = i + 1;
    }
    proof {
        let k = choose|k: int| 0 <= k < buf@.len() && buf@[k] == 0;
        assert(i < n) by {
            if i == n {
                assert(buf@[k] != 0);
            }
        }
        lemma_first_nul_characterization(buf@, i as int);
        assert(prefix@ =~= nul_prefix(buf@));
    }
    prefix
}

/// Marshal a whole argument vector for the native side, one NUL-terminated
/// buffer per argument.  This is the one place whose buffers the caller must
/// deliberately hand over for the life of the process, since the native side
/// retains their addresses.
pub fn to_c_args(argv: Vec<String>) -> (r: Result<Vec<NativeString>, MarshalError>)
    ensures
        r is Ok <==> (forall|i: int| 0 <= i < argv@.len() ==> !(#[trigger] argv@[i])@.contains('\0')),
        r is Ok ==> r->Ok_0@.len() == argv@.len(),
        r is Ok ==> forall|i: int|
            0 <= i < argv@.len() ==> (#[trigger] r->Ok_0@[i])@ == spec_to_native(argv@[i]@)
                && r->Ok_0@[i].wf(),
        r is Err ==> r->Err_0 == MarshalError::InteriorNul,
{
    let mut out: Vec<NativeString> = Vec::new();
    let mut i: usize = 0;
    let n = argv.len();
    while i < n
        invariant
            i <= n,
            n == argv@.len(),
            out@.len() == i,
            forall|j: int| 0 <= j < i ==> !(#[trigger] argv@[j])@.contains('\0'),
            forall|j: int|
                0 <= j < i ==> (#[trigger] out@[j])@ == spec_to_native(argv@[j]@) && out@[j].wf(),
        decreases n - i,
    {
        match to_native(argv[i].as_str()) {
            Ok(ns) => {
                out.push(ns);
            },
            Err(e) => {
                return Err(e);
            },
        }
        i = i + 1;
    }
    Ok(out)
}

/// Round trip through the native representation: a string without NUL
/// characters, marshalled out and read back, is unchanged.
pub proof fn lemma_string_round_trip(s: Seq<char>)
    requires
        !s.contains('\0'),
    ensures
        spec_from_native(spec_to_native(s)) == Some(s),
{
    broadcast use vstd::utf8::encode_utf8_valid_utf8;
    broadcast use vstd::utf8::encode_utf8_decode_utf8;

    let enc = encode_utf8(s);
    let buf = spec_to_native(s);
    lemma_nul_byte_iff_nul_char(s);
    assert(forall|j: int| 0 <= j < enc.len() ==> enc[j] != 0) by {
        assert(!enc.contains(0));
    }
    assert(buf[enc.len() as int] == 0);
    lemma_first_nul_characterization(buf, enc.len() as int);
    assert(nul_prefix(buf) =~= enc);
}

/// Errors of the marshalling layer that are reported to the caller rather
/// than handed on to the native side.
#[derive(Clone, Copy, Debug, PartialEq, Eq, Structural)]
pub enum MarshalError {
    /// A string headed for the native side holds an interior NUL byte.
    InteriorNul,
    /// Bytes from the native side are not valid UTF-8.
    InvalidEncoding,
    /// `shutdown` was called on a module that was not initialized.
    NotInitialized,
    /// A registration named an event kind that is only a sentinel.
    UnknownEventKind,
}

/// The per-module init/shutdown counter.
///
/// Each native module keeps a process-wide nesting count: `init` increments
/// it and `shutdown` decrements it, and only the pair that brings it back to
/// zero really tears the module down.  This object mirrors that count
/// explicitly, so that an unbalanced `shutdown` is caught as an error here
/// instead of corrupting the native count.
pub struct InitCounter {
    depth: u64,
}

impl InitCounter {
    /// The nesting depth: how many `init` calls await their `shutdown`.
    pub closed spec fn depth(self) -> u64 {
        self.depth
    }

    /// The module is initialized while the depth is positive.
    pub open spec fn is_initialized(self) -> bool {
        self.depth() > 0
    }

    /// A fresh counter for a module nobody has initialized yet.
    pub fn new() -> (c: InitCounter)
        ensures
            c.depth() == 0,
    {
        InitCounter { depth: 0 }
    }

    /// Record one `init` call; the result is the new depth, as the native
    /// `init` reports it.
    pub fn init(&mut self) -> (d: u64)
        requires
            old(self).depth() < u64::MAX,
        ensures
            final(self).depth() == old(self).depth() + 1,
            d == final(self).depth(),
            final(self).is_initialized(),
    {
        self.depth = self.depth + 1;
        self.depth
    }

    /// Record one `shutdown` call.  Balanced calls return the new depth;
    /// a `shutdown` without a matching `init` is refused and changes
    /// nothing.
    pub fn shutdown(&mut self) -> (r: Result<u64, MarshalError>)
        ensures
            old(self).depth() == 0 ==> r == Err::<u64, MarshalError>(MarshalError::NotInitialized)
                && final(self).depth() == 0,
            old(self).depth() > 0 ==> final(self).depth() == old(self).depth() - 1
                && r == Ok::<u64, MarshalError>(final(self).depth()),
    {
        if self.depth == 0 {
            Err(MarshalError::NotInitialized)
        } else {
            self.depth = self.depth - 1;
            Ok(self.depth)
        }
    }

    /// Ask whether the module is currently initialized.
    pub fn initialized(&self) -> (b: bool)
        ensures
            b == self.is_initialized(),
    {
        self.depth > 0
    }
}

} // verus!

