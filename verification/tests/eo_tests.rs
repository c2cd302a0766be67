use efl::eo::{DestroyLog, Eo, OwnedHandle, RefLedger, SharedHandle};

#[test]
fn owned_handle_refuses_null() {
    assert!(OwnedHandle::<Eo>::try_wrap(0).is_none());
}

#[test]
fn owned_handle_single_destruction() {
    let mut log = DestroyLog::new();
    let h = OwnedHandle::<Eo>::try_wrap(0xAA).unwrap();
    assert_eq!(h.as_raw(), 0xAA);
    // inspecting does not destroy
    assert_eq!(log.len(), 0);
    let addr = h.release(&mut log);
    assert_eq!(addr, 0xAA);
    // exactly one destroy recorded for this wrapper's lifetime
    assert_eq!(log.len(), 1);
    assert_eq!(log.entry(0), 0xAA);
}

#[test]
fn owned_handle_early_return_path_still_destroys_once() {
    fn use_handle(log: &mut DestroyLog, fail: bool) -> Result<(), ()> {
        let h = OwnedHandle::<Eo>::try_wrap(0xBB).ok_or(())?;
        if fail {
            h.release(log);
            return Err(());
        }
        h.release(log);
        Ok(())
    }
    let mut log = DestroyLog::new();
    assert!(use_handle(&mut log, true).is_err());
    assert!(use_handle(&mut log, false).is_ok());
    assert_eq!(log.len(), 2);
    assert_eq!(log.entry(0), 0xBB);
    assert_eq!(log.entry(1), 0xBB);
}

#[test]
fn shared_handle_refuses_null_and_records_nothing() {
    let mut ledger = RefLedger::new();
    assert!(SharedHandle::<Eo>::acquire(0, &mut ledger).is_none());
    assert_eq!(ledger.ref_calls(), 0);
    assert_eq!(ledger.unref_calls(), 0);
    assert_eq!(ledger.live_count(), 0);
}

#[test]
fn refcount_balance_over_clone_drop_sequences() {
    let mut ledger = RefLedger::new();
    let a = SharedHandle::<Eo>::acquire(0x10, &mut ledger).unwrap();
    let b = a.clone_ref(&mut ledger);
    let c = b.clone_ref(&mut ledger);
    assert_eq!(ledger.ref_calls(), 3);
    assert_eq!(ledger.live_count(), 3);
    assert_eq!(b.unref(&mut ledger), 0x10);
    let d = a.clone_ref(&mut ledger);
    assert_eq!(c.unref(&mut ledger), 0x10);
    assert_eq!(d.unref(&mut ledger), 0x10);
    assert_eq!(a.unref(&mut ledger), 0x10);
    // every ref call is matched by exactly one unref call
    assert_eq!(ledger.live_count(), 0);
    assert_eq!(ledger.ref_calls(), ledger.unref_calls());
    assert_eq!(ledger.ref_calls(), 4);
}
