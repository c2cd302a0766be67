//! The widget-toolkit module: the enumerations its calls marshal and the
//! argument marshalling for window creation.  The widget calls themselves
//! are mechanical one-line wrappers around native functions and stay
//! outside the crate; they hand strings and enumerations through the
//! functions here.

use crate::eseful::{spec_to_native, to_native, MarshalError, NativeString};
use vstd::prelude::*;

verus! {

/// Types of windows that can be created.
#[derive(Clone, Copy, Debug, PartialEq, Eq, Structural)]
pub enum ElmWinType {
    /// Unknown or missing window type; the native enumeration puts it
    /// before the others, at minus one.
    ElmWinUnknown,
    /// A normal, top-level window.
    ElmWinBasic,
    /// A simple dialog window.
    ElmWinDialogBasic,
    /// A special desktop window, like a background holding icons.
    ElmWinDesktop,
    /// A dock or panel, usually kept above other windows.
    ElmWinDock,
    /// A floating toolbar or similar.
    ElmWinToolbar,
    /// Similar to a toolbar window.
    ElmWinMenu,
    /// A persistent utility window, like a toolbox or palette.
    ElmWinUtility,
    /// A splash window for a starting application.
    ElmWinSplash,
    /// A dropdown menu, as when a menubar entry is clicked.
    ElmWinDropdownMenu,
    /// The menu triggered by right-clicking an object.
    ElmWinPopupMenu,
    /// A tooltip window.
    ElmWinTooltip,
    /// A notification window.
    ElmWinNotification,
    /// A window holding the contents of a combo box.
    ElmWinCombo,
    /// A representation of an object dragged across windows.
    ElmWinDnd,
    /// A window rendered onto an image buffer.
    ElmWinInlinedImage,
    /// A window rendered onto an image buffer shown by another process's
    /// plug image object.
    ElmWinSocketImage,
}

/// The number the native enumeration assigns to each window type; the
/// unknown type sits at minus one.
pub open spec fn spec_win_type_raw(t: ElmWinType) -> i32 {
    match t {
        ElmWinType::ElmWinUnknown => -1i32,
        ElmWinType::ElmWinBasic => 0,
        ElmWinType::ElmWinDialogBasic => 1,
        ElmWinType::ElmWinDesktop => 2,
        ElmWinType::ElmWinDock => 3,
        ElmWinType::ElmWinToolbar => 4,
        ElmWinType::ElmWinMenu => 5,
        ElmWinType::ElmWinUtility => 6,
        ElmWinType::ElmWinSplash => 7,
        ElmWinType::ElmWinDropdownMenu => 8,
        ElmWinType::ElmWinPopupMenu => 9,
        ElmWinType::ElmWinTooltip => 10,
        ElmWinType::ElmWinNotification => 11,
        ElmWinType::ElmWinCombo => 12,
        ElmWinType::ElmWinDnd => 13,
        ElmWinType::ElmWinInlinedImage => 14,
        ElmWinType::ElmWinSocketImage => 15,
    }
}

impl ElmWinType {
    /// The number handed to the native window-creation call for this type.
    pub fn to_raw(&self) -> (r: i32)
        ensures
            r == spec_win_type_raw(*self),
    {
        match self {
            ElmWinType::ElmWinUnknown => -1,
            ElmWinType::ElmWinBasic => 0,
            ElmWinType::ElmWinDialogBasic => 1,
            ElmWinType::ElmWinDesktop => 2,
            ElmWinType::ElmWinDock => 3,
            ElmWinType::ElmWinToolbar => 4,
            ElmWinType::ElmWinMenu => 5,
            ElmWinType::ElmWinUtility => 6,
            ElmWinType::ElmWinSplash => 7,
            ElmWinType::ElmWinDropdownMenu => 8,
            ElmWinType::ElmWinPopupMenu => 9,
            ElmWinType::ElmWinTooltip => 10,
            ElmWinType::ElmWinNotification => 11,
            ElmWinType::ElmWinCombo => 12,
            ElmWinType::ElmWinDnd => 13,
            ElmWinType::ElmWinInlinedImage => 14,
            ElmWinType::ElmWinSocketImage => 15,
        }
    }
}

/// The process-wide policies an application can set.
#[derive(Clone, Copy, Debug, PartialEq, Eq, Structural)]
pub enum ElmPolicy {
    /// When the application should quit on its own.
    ElmPolicyQuit,
    /// What happens on application exit.
    ElmPolicyExit,
    /// How the application throttles when hidden.
    ElmPolicyThrottle,
}

/// Values of the quit policy.
#[derive(Clone, Copy, Debug, PartialEq, Eq, Structural)]
pub enum ElmPolicyQuit {
    /// Never quit automatically.
    ElmPolicyQuitNone,
    /// Quit when the last window is closed.
    ElmPolicyQuitLastWindowClosed,
}

/// How a label slides its text.
#[derive(Clone, Copy, Debug, PartialEq, Eq, Structural)]
pub enum ElmLabelSlideMode {
    /// No slide effect.
    ElmLabelSlideModeNone,
    /// Slide only if the label area is smaller than the text.
    ElmLabelSlideModeAuto,
    /// Slide always.
    ElmLabelSlideModeAlways,
}

/// How a background widget places its image.
#[derive(Clone, Copy, Debug, PartialEq, Eq, Structural)]
pub enum ElmBgOption {
    /// Center the background image.
    ElmBgOptionCenter,
    /// Scale the background image, retaining aspect ratio.
    ElmBgOptionScalse,
    /// Stretch the background image to fill the widget's area.
    ElmBgOptionStretch,
    /// Tile the background image at its original size.
    ElmBgOptionTile,
    /// Sentinel value, also used to indicate errors.
    ElmBgOptionLast,
}

/// The text formats an entry widget can load and save.
#[derive(Clone, Copy, Debug, PartialEq, Eq, Structural)]
pub enum ElmTextFormat {
    PlainUTF8,
    MarkupUTF8,
}

/// Marshal the name and type of a new window; the parent handle passes
/// through unmarshalled.
pub fn win_add(name: &str, wtype: ElmWinType) -> (r: Result<(NativeString, i32), MarshalError>)
    ensures
        r is Ok <==> !name@.contains('\0'),
        r is Ok ==> r->Ok_0.0@ == spec_to_native(name@) && r->Ok_0.1 == spec_win_type_raw(wtype),
        r is Err ==> r->Err_0 == MarshalError::InteriorNul,
{
    match to_native(name) {
        Ok(n) => Ok((n, wtype.to_raw())),
        Err(e) => Err(e),
    }
}

} // verus!
