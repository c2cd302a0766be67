//! The canvas module: the owning wrapper around a native canvas, the event
//! kinds of canvas objects, and the trampolines for object and smart-event
//! callbacks.

use crate::eo::{DestroyLog, OwnedHandle};
use crate::eseful::{
    recover, spec_to_native, to_native, EventInfo, MarshalError, NativeString, OpaqueHandle,
};
use vstd::prelude::*;

verus! {

/// Tag for the native canvas handle.
pub enum Evas {
    Opaque,
}

/// A canvas object is a generic native object.
pub type EvasObject = crate::eo::Eo;

/// A point or extent on the canvas.
pub type Coord = (isize, isize);

/// The types of events triggering an object callback; the last entry is the
/// native enumeration's sentinel.
#[derive(Clone, Copy, Debug, PartialEq, Eq, Structural)]
pub enum EvasCallbackType {
    EvasCallbackMouseIn,
    EvasCallbackMouseOut,
    EvasCallbackMouseDown,
    EvasCallbackMouseUp,
    EvasCallbackMouseMove,
    EvasCallbackMouseWheel,
    EvasCallbackMultiDown,
    EvasCallbackMultiUp,
    EvasCallbackMultiMove,
    EvasCallbackFree,
    EvasCallbackKeyDown,
    EvasCallbackKeyUp,
    EvasCallbackFocusIn,
    EvasCallbackFocusOut,
    EvasCallbackShow,
    EvasCallbackHide,
    EvasCallbackMove,
    EvasCallbackResize,
    EvasCallbackRestack,
    EvasCallbackDel,
    EvasCallbackHold,
    EvasCallbackChangedSizeHints,
    EvasCallbackImagePrealoaded,
    EvasCallbackCanvasFocusIn,
    EvasCallbackCanvasFocusOut,
    EvasCallbackRenderFlushPre,
    EvasCallbackRenderFlushPost,
    EvasCallbackCanvasObjectFocusIn,
    EvasCallbackCanvasObjectFocusOut,
    EvasCallbackImageUnloaded,
    EvasCallbackRenderPre,
    EvasCallbackRenderPost,
    EvasCallbackImageResize,
    EvasCallbackDeviceChanged,
    EvasCallbackLast,
}

/// Wrap the handle a native canvas creation returned: null — no engine
/// could be set up — is surfaced as an absent value.
pub fn new(raw: usize) -> (r: Option<OwnedHandle<Evas>>)
    ensures
        r is Some <==> raw != 0,
        r is Some ==> r->0.addr() == raw,
{
    OwnedHandle::try_wrap(raw)
}

/// Release a canvas: the wrapper is consumed, exactly one native free of
/// its address is recorded and handed back for the native call.
pub fn free(e: OwnedHandle<Evas>, log: &mut DestroyLog) -> (a: usize)
    requires
        old(log)@.len() < usize::MAX,
    ensures
        a == e.addr(),
        final(log)@ == old(log)@.push(a),
{
    e.release(log)
}

/// Marshal the image file path and its optional key within the file for the
/// native image-file call; an absent key crosses as the null pointer.
pub fn object_image_file_set(file: &str, key: Option<&str>) -> (r: Result<
    (NativeString, Option<NativeString>),
    MarshalError,
>)
    ensures
        r is Ok <==> (!file@.contains('\0') && match key {
            Option::Some(k) => !k@.contains('\0'),
            Option::None => true,
        }),
        r is Ok ==> r->Ok_0.0@ == spec_to_native(file@) && (match key {
            Option::Some(k) => r->Ok_0.1 is Some && r->Ok_0.1->0@ == spec_to_native(k@),
            Option::None => r->Ok_0.1 is None,
        }),
        r is Err ==> r->Err_0 == MarshalError::InteriorNul,
{
    let f = match to_native(file) {
        Ok(f) => f,
        Err(e) => {
            return Err(e);
        },
    };
    match key {
        None => Ok((f, None)),
        Some(k) => match to_native(k) {
            Ok(nk) => Ok((f, Some(nk))),
            Err(e) => Err(e),
        },
    }
}

/// The object-event trampoline: recover the typed payload the registration
/// stored and hand the typed callback the canvas and object addresses with
/// the event information.
pub fn object_event_trampoline<T, F: Fn(&T, usize, usize, &EventInfo)>(
    data: &OpaqueHandle<T>,
    canvas: usize,
    obj: usize,
    info: &EventInfo,
    func: &F,
)
    requires
        call_requires(*func, (&data.value(), canvas, obj, info)),
    ensures
        call_ensures(*func, (&data.value(), canvas, obj, info), ()),
{
    let payload = recover(data);
    func(payload, canvas, obj, info);
}

/// The smart-event trampoline: recover the typed payload and hand the typed
/// callback the emitting object's address with the event information.
pub fn smart_trampoline<T, F: Fn(&Option<T>, usize, &EventInfo)>(
    data: &OpaqueHandle<Option<T>>,
    obj: usize,
    info: &EventInfo,
    func: &F,
)
    requires
        call_requires(*func, (&data.value(), obj, info)),
    ensures
        call_ensures(*func, (&data.value(), obj, info), ()),
{
    let payload = recover(data);
    func(payload, obj, info);
}

} // verus!
