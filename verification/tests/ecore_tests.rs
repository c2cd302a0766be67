use efl::ecore::{
    decode_event_info, evas_free, evas_new, evas_wrap, event_handler_trampoline, timer_trampoline,
    EcoreEvent, EcoreEventInfo, EcoreEventSignalExit, MainLoop, SigInfo, ECORE_CALLBACK_RENEW,
};
use efl::eina::{EINA_FALSE, EINA_TRUE};
use efl::eo::DestroyLog;
use efl::eseful::{store, MarshalError, EMPTY};
use std::cell::Cell;

#[test]
fn timer_registration_scenario() {
    let mut ml = MainLoop::new();
    ml.init();
    let id = ml.timer_add(1.0f64.to_bits());
    assert!(ml.has_timer(id));
    assert_eq!(ml.timer_count(), 1);

    // the native loop reaches time 10.0 and fires the trampoline with the
    // erased payload stored at registration
    let payload = store(Some(10.0f64));
    let now = 10.0f64;
    let observed = Cell::new(None);
    let cb = |data: &Option<f64>| -> bool {
        observed.set(*data);
        *data == Some(now)
    };
    let r = timer_trampoline(&payload, &cb);
    assert_eq!(observed.get(), Some(10.0));
    assert_eq!(r, ECORE_CALLBACK_RENEW);

    // the renew sentinel keeps the registration: the timer fires again
    ml.timer_fire(id, r);
    assert!(ml.has_timer(id));
    let r2 = timer_trampoline(&payload, &cb);
    assert_eq!(r2, ECORE_CALLBACK_RENEW);

    // anything else removes it
    ml.timer_fire(id, EINA_FALSE);
    assert!(!ml.has_timer(id));
    assert_eq!(ml.timer_count(), 0);
}

#[test]
fn init_shutdown_pairing_scenario() {
    let mut ml = MainLoop::new();
    assert_eq!(ml.init(), 1);
    assert_eq!(ml.init(), 2);
    assert_eq!(ml.shutdown(), Ok(1));
    assert_eq!(ml.shutdown(), Ok(0));
    assert!(!ml.initialized());
    assert_eq!(ml.shutdown(), Err(MarshalError::NotInitialized));
}

#[test]
fn event_handler_rejects_sentinels() {
    let mut ml = MainLoop::new();
    ml.init();
    assert_eq!(
        ml.event_handler_add(EcoreEvent::EcoreEventNone),
        Err(MarshalError::UnknownEventKind)
    );
    assert_eq!(
        ml.event_handler_add(EcoreEvent::EcoreEventCount),
        Err(MarshalError::UnknownEventKind)
    );
    assert_eq!(ml.handler_count(), 0);
    let id = ml.event_handler_add(EcoreEvent::EcoreEventSignalExit).unwrap();
    let id2 = ml.event_handler_add(EcoreEvent::EcoreEventSignalHup).unwrap();
    assert_ne!(id, id2);
    assert_eq!(ml.handler_count(), 2);
}

#[test]
fn event_raw_numbers() {
    assert_eq!(EcoreEvent::EcoreEventNone.to_raw(), 0);
    assert_eq!(EcoreEvent::EcoreEventSignalExit.to_raw(), 3);
    assert_eq!(EcoreEvent::EcoreEventSystemTimedateChanged.to_raw(), 10);
    assert_eq!(EcoreEvent::EcoreEventCount.to_raw(), 11);
}

#[test]
fn event_info_decoding_by_kind() {
    let exit = EcoreEventSignalExit {
        interrupt: EINA_TRUE,
        quit: EINA_FALSE,
        terminate: EINA_FALSE,
        data: SigInfo,
    };
    let decoded = decode_event_info(&EcoreEvent::EcoreEventSignalExit, Some(exit));
    assert_eq!(
        decoded,
        EcoreEventInfo::SignalExit { interrupt: true, quit: false, terminate: false }
    );
    // the kind decides, not the record: under another kind the record is opaque
    let other = decode_event_info(&EcoreEvent::EcoreEventSignalHup, Some(exit));
    assert_eq!(other, EcoreEventInfo::Plain);
    let missing = decode_event_info(&EcoreEvent::EcoreEventSignalExit, None);
    assert_eq!(missing, EcoreEventInfo::Plain);
}

#[test]
fn exit_signal_handler_scenario() {
    let mut ml = MainLoop::new();
    ml.init();
    ml.event_handler_add(EcoreEvent::EcoreEventSignalExit).unwrap();

    let payload = store(Some(7u8));
    let quit_seen = Cell::new(false);
    let cb = |data: &Option<u8>, kind: EcoreEvent, info: &EcoreEventInfo| -> bool {
        assert_eq!(*data, Some(7));
        assert_eq!(kind, EcoreEvent::EcoreEventSignalExit);
        if let EcoreEventInfo::SignalExit { quit, .. } = info {
            quit_seen.set(*quit);
        }
        true
    };
    let exit = EcoreEventSignalExit {
        interrupt: EINA_FALSE,
        quit: EINA_TRUE,
        terminate: EINA_FALSE,
        data: SigInfo,
    };
    let r = event_handler_trampoline(&payload, EcoreEvent::EcoreEventSignalExit, Some(exit), &cb);
    assert_eq!(r, EINA_TRUE);
    assert!(quit_seen.get());

    ml.main_loop_quit();
    assert!(ml.quit_requested());
}

#[test]
fn handler_with_empty_payload() {
    let payload = store(EMPTY);
    let r = event_handler_trampoline(
        &payload,
        EcoreEvent::EcoreEventSignalHup,
        None,
        &|data: &Option<()>, _kind: EcoreEvent, _info: &EcoreEventInfo| data.is_none(),
    );
    assert_eq!(r, EINA_TRUE);
}

#[test]
fn evas_new_marshals_engine_and_options() {
    let (engine, opts) = evas_new(Some("software_x11"), "").unwrap();
    assert_eq!(engine.unwrap().as_bytes(), &b"software_x11\0"[..]);
    assert_eq!(opts.as_bytes(), &b"\0"[..]);
    let (none_engine, _) = evas_new(None, "opt=1").unwrap();
    assert!(none_engine.is_none());
    assert_eq!(evas_new(Some("bad\0"), "").unwrap_err(), MarshalError::InteriorNul);
    assert_eq!(evas_new(None, "bad\0opt").unwrap_err(), MarshalError::InteriorNul);
}

#[test]
fn evas_handle_lifecycle() {
    assert!(evas_wrap(0).is_none());
    let ee = evas_wrap(0x1000).unwrap();
    assert_eq!(ee.as_raw(), 0x1000);
    let mut log = DestroyLog::new();
    let freed = evas_free(ee, &mut log);
    assert_eq!(freed, 0x1000);
    assert_eq!(log.len(), 1);
    assert_eq!(log.entry(0), 0x1000);
}
