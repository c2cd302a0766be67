use efl::eina::{EINA_FALSE, EINA_TRUE};
use efl::eldbus::{
    connection_get, connection_unref, message_arguments_get, message_error_get, object_get,
    object_get_args, object_unref, proxy_call, proxy_get, proxy_unref, EldbusConnectionType,
};
use efl::eo::RefLedger;
use efl::eseful::MarshalError;

#[test]
fn connection_type_raw_numbers() {
    assert_eq!(EldbusConnectionType::EldbusConnectionTypeUnknown.to_raw(), 0);
    assert_eq!(EldbusConnectionType::EldbusConnectionTypeSession.to_raw(), 1);
    assert_eq!(EldbusConnectionType::EldbusConnectionTypeSystem.to_raw(), 2);
    assert_eq!(EldbusConnectionType::EldbusConnectionTypeStarter.to_raw(), 3);
    assert_eq!(EldbusConnectionType::EldbusConnectionTypeAddress.to_raw(), 4);
    assert_eq!(EldbusConnectionType::EldbusConnectionTypeLast.to_raw(), 5);
}

#[test]
fn proxy_lifecycle_balances_refcounts() {
    let mut ledger = RefLedger::new();
    let conn = connection_get(0x100, &mut ledger).unwrap();
    let obj = object_get(0x200, &mut ledger).unwrap();
    let proxy = proxy_get(0x300, &mut ledger).unwrap();
    assert_eq!(ledger.ref_calls(), 3);
    assert_eq!(proxy_unref(proxy, &mut ledger), 0x300);
    assert_eq!(object_unref(obj, &mut ledger), 0x200);
    assert_eq!(connection_unref(conn, &mut ledger), 0x100);
    assert_eq!(ledger.live_count(), 0);
    assert_eq!(ledger.ref_calls(), ledger.unref_calls());
}

#[test]
fn failed_acquisitions_are_absent() {
    let mut ledger = RefLedger::new();
    assert!(connection_get(0, &mut ledger).is_none());
    assert!(object_get(0, &mut ledger).is_none());
    assert!(proxy_get(0, &mut ledger).is_none());
    assert_eq!(ledger.ref_calls(), 0);
}

#[test]
fn object_lookup_marshalling() {
    let (bus, path) = object_get_args("org.example.Bus", "/org/example/Path").unwrap();
    assert_eq!(bus.as_bytes(), &b"org.example.Bus\0"[..]);
    assert_eq!(path.as_bytes(), &b"/org/example/Path\0"[..]);
    assert_eq!(
        object_get_args("bad\0bus", "/p").unwrap_err(),
        MarshalError::InteriorNul
    );
    assert_eq!(
        object_get_args("org.example", "/bad\0path").unwrap_err(),
        MarshalError::InteriorNul
    );
}

#[test]
fn proxy_call_marshalling() {
    let (member, signature) = proxy_call("ListNames", "s").unwrap();
    assert_eq!(member.as_bytes(), &b"ListNames\0"[..]);
    assert_eq!(signature.as_bytes(), &b"s\0"[..]);
    assert_eq!(proxy_call("Bad\0Member", "s").unwrap_err(), MarshalError::InteriorNul);
}

#[test]
fn message_arguments_marshalling() {
    assert_eq!(message_arguments_get("s", EINA_TRUE), Ok(true));
    assert_eq!(message_arguments_get("s", EINA_FALSE), Ok(false));
    assert_eq!(
        message_arguments_get("s\0s", EINA_TRUE).unwrap_err(),
        MarshalError::InteriorNul
    );
}

#[test]
fn message_error_decoding_guards_absent_buffers() {
    let (is_err, name, text) = message_error_get(EINA_FALSE, None, None);
    assert!(!is_err);
    assert_eq!(name, None);
    assert_eq!(text, None);

    let (is_err, name, text) = message_error_get(
        EINA_TRUE,
        Some(b"org.freedesktop.DBus.Error.Failed\0".to_vec()),
        Some(b"it went wrong\0".to_vec()),
    );
    assert!(is_err);
    assert_eq!(name.as_deref(), Some("org.freedesktop.DBus.Error.Failed"));
    assert_eq!(text.as_deref(), Some("it went wrong"));

    // one side requested only
    let (is_err, name, text) = message_error_get(EINA_TRUE, Some(b"name.only\0".to_vec()), None);
    assert!(is_err);
    assert_eq!(name.as_deref(), Some("name.only"));
    assert_eq!(text, None);
}

#[test]
fn message_error_decoding_is_best_effort() {
    let (_, name, _) = message_error_get(EINA_TRUE, Some(b"bad\xffname\0".to_vec()), None);
    assert_eq!(name.as_deref(), Some("bad\u{fffd}name"));
}
