use efl::elementary::{win_add, ElmWinType};
use efl::eo::DestroyLog;
use efl::eseful::{store, EventInfo, MarshalError};
use efl::ecore::resize_trampoline;
use efl::evas::{free, new, object_event_trampoline, object_image_file_set, smart_trampoline};
use efl::eio::{
    done_trampoline, error_trampoline, file_copy, file_ls, filter_trampoline, main_trampoline,
    progress_decode, progress_trampoline, EioFileOp,
};
use efl::eina::EINA_TRUE;
use std::cell::Cell;

#[test]
fn canvas_lifecycle() {
    assert!(new(0).is_none());
    let canvas = new(0x700).unwrap();
    let mut log = DestroyLog::new();
    assert_eq!(free(canvas, &mut log), 0x700);
    assert_eq!(log.len(), 1);
    assert_eq!(log.entry(0), 0x700);
}

#[test]
fn image_file_marshalling() {
    let (file, key) = object_image_file_set("img.png", None).unwrap();
    assert_eq!(file.as_bytes(), &b"img.png\0"[..]);
    assert!(key.is_none());
    let (file, key) = object_image_file_set("data.eet", Some("icon")).unwrap();
    assert_eq!(file.as_bytes(), &b"data.eet\0"[..]);
    assert_eq!(key.unwrap().as_bytes(), &b"icon\0"[..]);
    assert_eq!(
        object_image_file_set("bad\0file", None).unwrap_err(),
        MarshalError::InteriorNul
    );
    assert_eq!(
        object_image_file_set("ok.png", Some("bad\0key")).unwrap_err(),
        MarshalError::InteriorNul
    );
}

#[test]
fn object_and_smart_trampolines_deliver_payload() {
    let payload = store(5u32);
    let seen = Cell::new(0u32);
    let cb = |data: &u32, canvas: usize, obj: usize, _info: &EventInfo| {
        assert_eq!(canvas, 0x11);
        assert_eq!(obj, 0x22);
        seen.set(*data);
    };
    object_event_trampoline(&payload, 0x11, 0x22, &EventInfo, &cb);
    assert_eq!(seen.get(), 5);

    let smart_payload = store(Some(9i64));
    let smart_seen = Cell::new(None);
    let smart_cb = |data: &Option<i64>, obj: usize, _info: &EventInfo| {
        assert_eq!(obj, 0x33);
        smart_seen.set(*data);
    };
    smart_trampoline(&smart_payload, 0x33, &EventInfo, &smart_cb);
    assert_eq!(smart_seen.get(), Some(9));

    let resized = Cell::new(0usize);
    resize_trampoline(0x44, &|ee: usize| resized.set(ee));
    assert_eq!(resized.get(), 0x44);
}

#[test]
fn window_type_raw_numbers() {
    assert_eq!(ElmWinType::ElmWinUnknown.to_raw(), -1);
    assert_eq!(ElmWinType::ElmWinBasic.to_raw(), 0);
    assert_eq!(ElmWinType::ElmWinSocketImage.to_raw(), 15);
}

#[test]
fn window_add_marshalling() {
    let (name, wtype) = win_add("main", ElmWinType::ElmWinBasic).unwrap();
    assert_eq!(name.as_bytes(), &b"main\0"[..]);
    assert_eq!(wtype, 0);
    assert_eq!(win_add("bad\0win", ElmWinType::ElmWinBasic).unwrap_err(), MarshalError::InteriorNul);
}

#[test]
fn io_path_marshalling() {
    assert_eq!(file_ls("/tmp").unwrap().as_bytes(), &b"/tmp\0"[..]);
    let (src, dst) = file_copy("/a", "/b").unwrap();
    assert_eq!(src.as_bytes(), &b"/a\0"[..]);
    assert_eq!(dst.as_bytes(), &b"/b\0"[..]);
    assert_eq!(file_copy("/a", "/b\0ad").unwrap_err(), MarshalError::InteriorNul);
}

#[test]
fn io_progress_decoding() {
    let p = progress_decode(
        EioFileOp::EioFileCopy,
        50,
        100,
        0.5f32.to_bits(),
        b"/src\0",
        b"/dst\0",
    );
    assert!(matches!(p.op, EioFileOp::EioFileCopy));
    assert_eq!(p.current, 50);
    assert_eq!(p.max, 100);
    assert_eq!(f32::from_bits(p.percent_bits), 0.5);
    assert_eq!(p.source, "/src");
    assert_eq!(p.dest, "/dst");
}

#[test]
fn io_trampolines_deliver_payload_and_events() {
    let payload = store(1u8);
    let path = String::from("/tmp/file");

    let kept = filter_trampoline(&payload, 0x50, &path, &|d: &u8, f: usize, p: &String| {
        assert_eq!(*d, 1);
        assert_eq!(f, 0x50);
        p.starts_with("/tmp")
    });
    assert_eq!(kept, EINA_TRUE);

    let main_seen = Cell::new(false);
    main_trampoline(&payload, 0x50, &path, &|_d: &u8, _f: usize, p: &String| {
        main_seen.set(p == "/tmp/file");
    });
    assert!(main_seen.get());

    let progress = progress_decode(EioFileOp::EioFileMove, 1, 2, 0, b"/s\0", b"/d\0");
    let progress_seen = Cell::new(0i64);
    progress_trampoline(&payload, 0x50, &progress, &|_d: &u8, _f: usize, p| {
        progress_seen.set(p.max);
    });
    assert_eq!(progress_seen.get(), 2);

    let done_seen = Cell::new(0usize);
    done_trampoline(&payload, 0x51, &|_d: &u8, f: usize| done_seen.set(f));
    assert_eq!(done_seen.get(), 0x51);

    let errno_seen = Cell::new(0i32);
    error_trampoline(&payload, 0x52, 13, &|_d: &u8, _f: usize, e: i32| errno_seen.set(e));
    assert_eq!(errno_seen.get(), 13);
}
