use efl::eina::{EINA_FALSE, EINA_TRUE};
use efl::eseful::{
    from_bool_to_eina, from_eina_to_bool, from_native, from_native_lossy, recover, store, take,
    to_c_args, to_native, InitCounter, MarshalError,
};

#[test]
fn bool_marshalling_exact_values() {
    assert_eq!(from_bool_to_eina(true), EINA_TRUE);
    assert_eq!(from_bool_to_eina(false), EINA_FALSE);
    assert!(from_eina_to_bool(EINA_TRUE));
    assert!(!from_eina_to_bool(EINA_FALSE));
    // the native side may hand any non-zero byte; only 1 counts as true here
    assert!(!from_eina_to_bool(7));
}

#[test]
fn bool_round_trip() {
    for b in [true, false] {
        assert_eq!(from_eina_to_bool(from_bool_to_eina(b)), b);
    }
}

#[test]
fn carrier_round_trip_integer() {
    let h = store(42i32);
    assert_eq!(*recover(&h), 42);
    assert_eq!(take(h), 42);
}

#[test]
fn carrier_round_trip_string() {
    let h = store(String::from("payload"));
    assert_eq!(recover(&h).as_str(), "payload");
    assert_eq!(take(h), "payload");
}

#[derive(Debug, PartialEq, Clone)]
struct Multi {
    a: u8,
    b: i64,
    c: String,
}

#[test]
fn carrier_round_trip_struct() {
    let v = Multi { a: 1, b: -2, c: String::from("three") };
    let h = store(v.clone());
    assert_eq!(*recover(&h), v);
    assert_eq!(take(h), v);
}

#[test]
fn carrier_round_trip_option_reference() {
    let word = String::from("borrowed");
    let h = store(Some(word.as_str()));
    assert_eq!(*recover(&h), Some("borrowed"));
    assert_eq!(take(h), Some(word.as_str()));
    let h2 = store(None::<&str>);
    assert_eq!(take(h2), None);
}

#[test]
fn carrier_round_trip_float_payload() {
    let h = store(Some(10.0f64));
    assert_eq!(*recover(&h), Some(10.0));
}

#[test]
fn to_native_appends_terminator() {
    let ns = to_native("abc").unwrap();
    assert_eq!(ns.as_bytes(), &b"abc\0"[..]);
}

#[test]
fn to_native_empty_string() {
    let ns = to_native("").unwrap();
    assert_eq!(ns.as_bytes(), &b"\0"[..]);
}

#[test]
fn to_native_rejects_interior_nul() {
    assert_eq!(to_native("a\0b").unwrap_err(), MarshalError::InteriorNul);
    assert_eq!(to_native("\0").unwrap_err(), MarshalError::InteriorNul);
}

#[test]
fn from_native_reads_to_terminator() {
    assert_eq!(from_native(b"hello\0junk").unwrap(), "hello");
    assert_eq!(from_native(b"\0").unwrap(), "");
}

#[test]
fn from_native_rejects_invalid_encoding() {
    assert_eq!(from_native(b"\xff\xfe\0").unwrap_err(), MarshalError::InvalidEncoding);
}

#[test]
fn from_native_accepts_multibyte() {
    let ns = to_native("gr\u{00fc}n \u{2603}").unwrap();
    assert_eq!(from_native(ns.as_bytes()).unwrap(), "gr\u{00fc}n \u{2603}");
}

#[test]
fn string_round_trip() {
    for s in ["", "a", "Rust EFL!", "p\u{00e4}th/\u{4e16}\u{754c}"] {
        let ns = to_native(s).unwrap();
        assert_eq!(from_native(ns.as_bytes()).unwrap(), s);
    }
}

#[test]
fn lossy_decode_substitutes() {
    assert_eq!(from_native_lossy(b"ok\0"), "ok");
    let lossy = from_native_lossy(b"a\xffb\0");
    assert_eq!(lossy, "a\u{fffd}b");
}

#[test]
fn c_args_marshalling() {
    let argv = vec![String::from("prog"), String::from("--flag")];
    let out = to_c_args(argv).unwrap();
    assert_eq!(out.len(), 2);
    assert_eq!(out[0].as_bytes(), &b"prog\0"[..]);
    assert_eq!(out[1].as_bytes(), &b"--flag\0"[..]);
}

#[test]
fn c_args_reject_interior_nul() {
    let argv = vec![String::from("ok"), String::from("bad\0arg")];
    assert_eq!(to_c_args(argv).unwrap_err(), MarshalError::InteriorNul);
}

#[test]
fn init_shutdown_pairing() {
    let mut c = InitCounter::new();
    assert!(!c.initialized());
    assert_eq!(c.init(), 1);
    assert_eq!(c.init(), 2);
    assert!(c.initialized());
    assert_eq!(c.shutdown(), Ok(1));
    assert_eq!(c.shutdown(), Ok(0));
    assert!(!c.initialized());
    assert_eq!(c.shutdown(), Err(MarshalError::NotInitialized));
    assert!(!c.initialized());
}
