use vstd::prelude::*;

verus! {

/// Where an event tap is installed in the event stream.
#[allow(non_camel_case_types)]
#[derive(Clone, Copy, Debug, PartialEq, Eq, Structural)]
pub enum CGEventTapLocation {
    kCGHIDEventTap,
    kCGSessionEventTap,
    kCGAnnotatedSessionEventTap,
}

impl CGEventTapLocation {
    /// The number that the system API uses for this value.
    pub open spec fn spec_code(self) -> u32 {
        match self {
            CGEventTapLocation::kCGHIDEventTap => 0,
            CGEventTapLocation::kCGSessionEventTap => 1,
            CGEventTapLocation::kCGAnnotatedSessionEventTap => 2,
        }
    }

    /// The number that the system API takes for this value.
    pub fn code(self) -> (c: u32)
        ensures
            c == self.spec_code(),
    {
        match self {
            CGEventTapLocation::kCGHIDEventTap => 0,
            CGEventTapLocation::kCGSessionEventTap => 1,
            CGEventTapLocation::kCGAnnotatedSessionEventTap => 2,
        }
    }
}

/// Whether a new event tap goes before or after the taps already installed at its location.
#[allow(non_camel_case_types)]
#[derive(Clone, Copy, Debug, PartialEq, Eq, Structural)]
pub enum CGEventTapPlacement {
    kCGHeadInsertEventTap,
    kCGTailAppendEventTap,
}

impl CGEventTapPlacement {
    /// The number that the system API uses for this value.
    pub open spec fn spec_code(self) -> u32 {
        match self {
            CGEventTapPlacement::kCGHeadInsertEventTap => 0,
            CGEventTapPlacement::kCGTailAppendEventTap => 1,
        }
    }

    /// The number that the system API takes for this value.
    pub fn code(self) -> (c: u32)
        ensures
            c == self.spec_code(),
    {
        match self {
            CGEventTapPlacement::kCGHeadInsertEventTap => 0,
            CGEventTapPlacement::kCGTailAppendEventTap => 1,
        }
    }
}

/// Whether an event tap may alter events or only listens to them.
#[allow(non_camel_case_types)]
#[derive(Clone, Copy, Debug, PartialEq, Eq, Structural)]
pub enum CGEventTapOptions {
    kCGEventTapOptionDefault,
    kCGEventTapOptionListenOnly,
}

impl CGEventTapOptions {
    /// The number that the system API uses for this value.
    pub open spec fn spec_code(self) -> u32 {
        match self {
            CGEventTapOptions::kCGEventTapOptionDefault => 0,
            CGEventTapOptions::kCGEventTapOptionListenOnly => 1,
        }
    }

    /// The number that the system API takes for this value.
    pub fn code(self) -> (c: u32)
        ensures
            c == self.spec_code(),
    {
        match self {
            CGEventTapOptions::kCGEventTapOptionDefault => 0,
            CGEventTapOptions::kCGEventTapOptionListenOnly => 1,
        }
    }
}

/// The kinds of input events that an event tap can see.
#[allow(non_camel_case_types)]
#[derive(Clone, Copy, Debug, PartialEq, Eq, Structural)]
pub enum CGEventType {
    kCGEventNull,
    kCGEventLeftMouseDown,
    kCGEventLeftMouseUp,
    kCGEventRightMouseDown,
    kCGEventRightMouseUp,
    kCGEventMouseMoved,
    kCGEventLeftMouseDragged,
    kCGEventRightMouseDragged,
    kCGEventKeyDown,
    kCGEventKeyUp,
    kCGEventFlagsChanged,
    kCGEventScrollWheel,
    kCGEventTabletPointer,
    kCGEventTabletProximity,
    kCGEventOtherMouseDown,
    kCGEventOtherMouseUp,
    kCGEventOtherMouseDragged,
    kCGEventTapDisabledByTimeout,
    kCGEventTapDisabledByUserInput,
}

impl CGEventType {
    /// The number that the system API uses for this value.
    pub open spec fn spec_code(self) -> u32 {
        match self {
            CGEventType::kCGEventNull => 0,
            CGEventType::kCGEventLeftMouseDown => 1,
            CGEventType::kCGEventLeftMouseUp => 2,
            CGEventType::kCGEventRightMouseDown => 3,
            CGEventType::kCGEventRightMouseUp => 4,
            CGEventType::kCGEventMouseMoved => 5,
            CGEventType::kCGEventLeftMouseDragged => 6,
            CGEventType::kCGEventRightMouseDragged => 7,
            CGEventType::kCGEventKeyDown => 10,
            CGEventType::kCGEventKeyUp => 11,
            CGEventType::kCGEventFlagsChanged => 12,
            CGEventType::kCGEventScrollWheel => 22,
            CGEventType::kCGEventTabletPointer => 23,
            CGEventType::kCGEventTabletProximity => 24,
            CGEventType::kCGEventOtherMouseDown => 25,
            CGEventType::kCGEventOtherMouseUp => 26,
            CGEventType::kCGEventOtherMouseDragged => 27,
            CGEventType::kCGEventTapDisabledByTimeout => 0xfffffffe,
            CGEventType::kCGEventTapDisabledByUserInput => 0xffffffff,
        }
    }

    /// The number that the system API takes for this value.
    pub fn code(self) -> (c: u32)
        ensures
            c == self.spec_code(),
    {
        match self {
            CGEventType::kCGEventNull => 0,
            CGEventType::kCGEventLeftMouseDown => 1,
            CGEventType::kCGEventLeftMouseUp => 2,
            CGEventType::kCGEventRightMouseDown => 3,
            CGEventType::kCGEventRightMouseUp => 4,
            CGEventType::kCGEventMouseMoved => 5,
            CGEventType::kCGEventLeftMouseDragged => 6,
            CGEventType::kCGEventRightMouseDragged => 7,
            CGEventType::kCGEventKeyDown => 10,
            CGEventType::kCGEventKeyUp => 11,
            CGEventType::kCGEventFlagsChanged => 12,
            CGEventType::kCGEventScrollWheel => 22,
            CGEventType::kCGEventTabletPointer => 23,
            CGEventType::kCGEventTabletProximity => 24,
            CGEventType::kCGEventOtherMouseDown => 25,
            CGEventType::kCGEventOtherMouseUp => 26,
            CGEventType::kCGEventOtherMouseDragged => 27,
            CGEventType::kCGEventTapDisabledByTimeout => 0xfffffffe,
            CGEventType::kCGEventTapDisabledByUserInput => 0xffffffff,
        }
    }

    /// The event type that the system API denotes by `c`, if any.
    pub fn from_code(c: u32) -> (r: Option<CGEventType>)
        ensures
            r matches Some(t) ==> t.spec_code() == c,
            r is None ==> forall|t: CGEventType| #[trigger] t.spec_code() != c,
    {
        match c {
            0 => Some(CGEventType::kCGEventNull),
            1 => Some(CGEventType::kCGEventLeftMouseDown),
            2 => Some(CGEventType::kCGEventLeftMouseUp),
            3 => Some(CGEventType::kCGEventRightMouseDown),
            4 => Some(CGEventType::kCGEventRightMouseUp),
            5 => Some(CGEventType::kCGEventMouseMoved),
            6 => Some(CGEventType::kCGEventLeftMouseDragged),
            7 => Some(CGEventType::kCGEventRightMouseDragged),
            10 => Some(CGEventType::kCGEventKeyDown),
            11 => Some(CGEventType::kCGEventKeyUp),
            12 => Some(CGEventType::kCGEventFlagsChanged),
            22 => Some(CGEventType::kCGEventScrollWheel),
            23 => Some(CGEventType::kCGEventTabletPointer),
            24 => Some(CGEventType::kCGEventTabletProximity),
            25 => Some(CGEventType::kCGEventOtherMouseDown),
            26 => Some(CGEventType::kCGEventOtherMouseUp),
            27 => Some(CGEventType::kCGEventOtherMouseDragged),
            0xfffffffe => Some(CGEventType::kCGEventTapDisabledByTimeout),
            0xffffffff => Some(CGEventType::kCGEventTapDisabledByUserInput),
            _ => None,
        }
    }
}

/// The named window levels of the window server.
#[allow(non_camel_case_types)]
#[derive(Clone, Copy, Debug, PartialEq, Eq, Structural)]
pub enum CGWindowLevelKey {
    kCGBaseWindowLevelKey,
    kCGMinimumWindowLevelKey,
    kCGDesktopWindowLevelKey,
    kCGBackstopMenuLevelKey,
    kCGNormalWindowLevelKey,
    kCGFloatingWindowLevelKey,
    kCGTornOffMenuWindowLevelKey,
    kCGDockWindowLevelKey,
    kCGMainMenuWindowLevelKey,
    kCGStatusWindowLevelKey,
    kCGModalPanelWindowLevelKey,
    kCGPopUpMenuWindowLevelKey,
    kCGDraggingWindowLevelKey,
    kCGScreenSaverWindowLevelKey,
    kCGMaximumWindowLevelKey,
    kCGOverlayWindowLevelKey,
    kCGHelpWindowLevelKey,
    kCGUtilityWindowLevelKey,
    kCGDesktopIconWindowLevelKey,
    kCGCursorWindowLevelKey,
    kCGAssistiveTechHighWindowLevelKey,
    kCGNumberOfWindowLevelKeys,
}

impl CGWindowLevelKey {
    /// The number that the system API uses for this value.
    pub open spec fn spec_code(self) -> i32 {
        match self {
            CGWindowLevelKey::kCGBaseWindowLevelKey => 0,
            CGWindowLevelKey::kCGMinimumWindowLevelKey => 1,
            CGWindowLevelKey::kCGDesktopWindowLevelKey => 2,
            CGWindowLevelKey::kCGBackstopMenuLevelKey => 3,
            CGWindowLevelKey::kCGNormalWindowLevelKey => 4,
            CGWindowLevelKey::kCGFloatingWindowLevelKey => 5,
            CGWindowLevelKey::kCGTornOffMenuWindowLevelKey => 6,
            CGWindowLevelKey::kCGDockWindowLevelKey => 7,
            CGWindowLevelKey::kCGMainMenuWindowLevelKey => 8,
            CGWindowLevelKey::kCGStatusWindowLevelKey => 9,
            CGWindowLevelKey::kCGModalPanelWindowLevelKey => 10,
            CGWindowLevelKey::kCGPopUpMenuWindowLevelKey => 11,
            CGWindowLevelKey::kCGDraggingWindowLevelKey => 12,
            CGWindowLevelKey::kCGScreenSaverWindowLevelKey => 13,
            CGWindowLevelKey::kCGMaximumWindowLevelKey => 14,
            CGWindowLevelKey::kCGOverlayWindowLevelKey => 15,
            CGWindowLevelKey::kCGHelpWindowLevelKey => 16,
            CGWindowLevelKey::kCGUtilityWindowLevelKey => 17,
            CGWindowLevelKey::kCGDesktopIconWindowLevelKey => 18,
            CGWindowLevelKey::kCGCursorWindowLevelKey => 19,
            CGWindowLevelKey::kCGAssistiveTechHighWindowLevelKey => 20,
            CGWindowLevelKey::kCGNumberOfWindowLevelKeys => 21,
        }
    }

    /// The number that the system API takes for this value.
    pub fn code(self) -> (c: i32)
        ensures
            c == self.spec_code(),
    {
        match self {
            CGWindowLevelKey::kCGBaseWindowLevelKey => 0,
            CGWindowLevelKey::kCGMinimumWindowLevelKey => 1,
            CGWindowLevelKey::kCGDesktopWindowLevelKey => 2,
            CGWindowLevelKey::kCGBackstopMenuLevelKey => 3,
            CGWindowLevelKey::kCGNormalWindowLevelKey => 4,
            CGWindowLevelKey::kCGFloatingWindowLevelKey => 5,
            CGWindowLevelKey::kCGTornOffMenuWindowLevelKey => 6,
            CGWindowLevelKey::kCGDockWindowLevelKey => 7,
            CGWindowLevelKey::kCGMainMenuWindowLevelKey => 8,
            CGWindowLevelKey::kCGStatusWindowLevelKey => 9,
            CGWindowLevelKey::kCGModalPanelWindowLevelKey => 10,
            CGWindowLevelKey::kCGPopUpMenuWindowLevelKey => 11,
            CGWindowLevelKey::kCGDraggingWindowLevelKey => 12,
            CGWindowLevelKey::kCGScreenSaverWindowLevelKey => 13,
            CGWindowLevelKey::kCGMaximumWindowLevelKey => 14,
            CGWindowLevelKey::kCGOverlayWindowLevelKey => 15,
            CGWindowLevelKey::kCGHelpWindowLevelKey => 16,
            CGWindowLevelKey::kCGUtilityWindowLevelKey => 17,
            CGWindowLevelKey::kCGDesktopIconWindowLevelKey => 18,
            CGWindowLevelKey::kCGCursorWindowLevelKey => 19,
            CGWindowLevelKey::kCGAssistiveTechHighWindowLevelKey => 20,
            CGWindowLevelKey::kCGNumberOfWindowLevelKeys => 21,
        }
    }
}

/// The fields of an input event that can be read as integers or doubles.
#[allow(non_camel_case_types)]
#[derive(Clone, Copy, Debug, PartialEq, Eq, Structural)]
pub enum CGEventField {
    kCGMouseEventNumber,
    kCGMouseEventClickState,
    kCGMouseEventPressure,
    kCGMouseEventButtonNumber,
    kCGMouseEventDeltaX,
    kCGMouseEventDeltaY,
    kCGMouseEventInstantMouser,
    kCGMouseEventSubtype,
    kCGKeyboardEventAutorepeat,
    kCGKeyboardEventKeycode,
    kCGKeyboardEventKeyboardType,
    kCGScrollWheelEventDeltaAxis1,
    kCGScrollWheelEventDeltaAxis2,
    kCGScrollWheelEventDeltaAxis3,
    kCGScrollWheelEventFixedPtDeltaAxis1,
    kCGScrollWheelEventFixedPtDeltaAxis2,
    kCGScrollWheelEventFixedPtDeltaAxis3,
    kCGScrollWheelEventPointDeltaAxis1,
    kCGScrollWheelEventPointDeltaAxis2,
    kCGScrollWheelEventPointDeltaAxis3,
    kCGScrollWheelEventScrollPhase,
    kCGScrollWheelEventScrollCount,
    kCGScrollWheelEventMomentumPhase,
    kCGScrollWheelEventInstantMouser,
    kCGTabletEventPointX,
    kCGTabletEventPointY,
    kCGTabletEventPointZ,
    kCGTabletEventPointButtons,
    kCGTabletEventPointPressure,
    kCGTabletEventTiltX,
    kCGTabletEventTiltY,
    kCGTabletEventRotation,
    kCGTabletEventTangentialPressure,
    kCGTabletEventDeviceID,
    kCGTabletEventVendor1,
    kCGTabletEventVendor2,
    kCGTabletEventVendor3,
    kCGTabletProximityEventVendorID,
    kCGTabletProximityEventTabletID,
    kCGTabletProximityEventPointerID,
    kCGTabletProximityEventDeviceID,
    kCGTabletProximityEventSystemTabletID,
    kCGTabletProximityEventVendorPointerType,
    kCGTabletProximityEventVendorPointerSerialNumber,
    kCGTabletProximityEventVendorUniqueID,
    kCGTabletProximityEventCapabilityMask,
    kCGTabletProximityEventPointerType,
    kCGTabletProximityEventEnterProximity,
    kCGEventTargetProcessSerialNumber,
    kCGEventTargetUnixProcessID,
    kCGEventSourceUnixProcessID,
    kCGEventSourceUserData,
    kCGEventSourceUserID,
    kCGEventSourceGroupID,
    kCGEventSourceStateID,
    kCGScrollWheelEventIsContinuous,
    kCGMouseEventWindowUnderMousePointer,
    kCGMouseEventWindowUnderMousePointerThatCanHandleThisEvent,
}

impl CGEventField {
    /// The number that the system API uses for this value.
    pub open spec fn spec_code(self) -> u32 {
        match self {
            CGEventField::kCGMouseEventNumber => 0,
            CGEventField::kCGMouseEventClickState => 1,
            CGEventField::kCGMouseEventPressure => 2,
            CGEventField::kCGMouseEventButtonNumber => 3,
            CGEventField::kCGMouseEventDeltaX => 4,
            CGEventField::kCGMouseEventDeltaY => 5,
            CGEventField::kCGMouseEventInstantMouser => 6,
            CGEventField::kCGMouseEventSubtype => 7,
            CGEventField::kCGKeyboardEventAutorepeat => 8,
            CGEventField::kCGKeyboardEventKeycode => 9,
            CGEventField::kCGKeyboardEventKeyboardType => 10,
            CGEventField::kCGScrollWheelEventDeltaAxis1 => 11,
            CGEventField::kCGScrollWheelEventDeltaAxis2 => 12,
            CGEventField::kCGScrollWheelEventDeltaAxis3 => 13,
            CGEventField::kCGScrollWheelEventFixedPtDeltaAxis1 => 93,
            CGEventField::kCGScrollWheelEventFixedPtDeltaAxis2 => 94,
            CGEventField::kCGScrollWheelEventFixedPtDeltaAxis3 => 95,
            CGEventField::kCGScrollWheelEventPointDeltaAxis1 => 96,
            CGEventField::kCGScrollWheelEventPointDeltaAxis2 => 97,
            CGEventField::kCGScrollWheelEventPointDeltaAxis3 => 98,
            CGEventField::kCGScrollWheelEventScrollPhase => 99,
            CGEventField::kCGScrollWheelEventScrollCount => 100,
            CGEventField::kCGScrollWheelEventMomentumPhase => 123,
            CGEventField::kCGScrollWheelEventInstantMouser => 14,
            CGEventField::kCGTabletEventPointX => 15,
            CGEventField::kCGTabletEventPointY => 16,
            CGEventField::kCGTabletEventPointZ => 17,
            CGEventField::kCGTabletEventPointButtons => 18,
            CGEventField::kCGTabletEventPointPressure => 19,
            CGEventField::kCGTabletEventTiltX => 20,
            CGEventField::kCGTabletEventTiltY => 21,
            CGEventField::kCGTabletEventRotation => 22,
            CGEventField::kCGTabletEventTangentialPressure => 23,
            CGEventField::kCGTabletEventDeviceID => 24,
            CGEventField::kCGTabletEventVendor1 => 25,
            CGEventField::kCGTabletEventVendor2 => 26,
            CGEventField::kCGTabletEventVendor3 => 27,
            CGEventField::kCGTabletProximityEventVendorID => 28,
            CGEventField::kCGTabletProximityEventTabletID => 29,
            CGEventField::kCGTabletProximityEventPointerID => 30,
            CGEventField::kCGTabletProximityEventDeviceID => 31,
            CGEventField::kCGTabletProximityEventSystemTabletID => 32,
            CGEventField::kCGTabletProximityEventVendorPointerType => 33,
            CGEventField::kCGTabletProximityEventVendorPointerSerialNumber => 34,
            CGEventField::kCGTabletProximityEventVendorUniqueID => 35,
            CGEventField::kCGTabletProximityEventCapabilityMask => 36,
            CGEventField::kCGTabletProximityEventPointerType => 37,
            CGEventField::kCGTabletProximityEventEnterProximity => 38,
            CGEventField::kCGEventTargetProcessSerialNumber => 39,
            CGEventField::kCGEventTargetUnixProcessID => 40,
            CGEventField::kCGEventSourceUnixProcessID => 41,
            CGEventField::kCGEventSourceUserData => 42,
            CGEventField::kCGEventSourceUserID => 43,
            CGEventField::kCGEventSourceGroupID => 44,
            CGEventField::kCGEventSourceStateID => 45,
            CGEventField::kCGScrollWheelEventIsContinuous => 88,
            CGEventField::kCGMouseEventWindowUnderMousePointer => 91,
            CGEventField::kCGMouseEventWindowUnderMousePointerThatCanHandleThisEvent => 92,
        }
    }

    /// The number that the system API takes for this value.
    pub fn code(self) -> (c: u32)
        ensures
            c == self.spec_code(),
    {
        match self {
            CGEventField::kCGMouseEventNumber => 0,
            CGEventField::kCGMouseEventClickState => 1,
            CGEventField::kCGMouseEventPressure => 2,
            CGEventField::kCGMouseEventButtonNumber => 3,
            CGEventField::kCGMouseEventDeltaX => 4,
            CGEventField::kCGMouseEventDeltaY => 5,
            CGEventField::kCGMouseEventInstantMouser => 6,
            CGEventField::kCGMouseEventSubtype => 7,
            CGEventField::kCGKeyboardEventAutorepeat => 8,
            CGEventField::kCGKeyboardEventKeycode => 9,
            CGEventField::kCGKeyboardEventKeyboardType => 10,
            CGEventField::kCGScrollWheelEventDeltaAxis1 => 11,
            CGEventField::kCGScrollWheelEventDeltaAxis2 => 12,
            CGEventField::kCGScrollWheelEventDeltaAxis3 => 13,
            CGEventField::kCGScrollWheelEventFixedPtDeltaAxis1 => 93,
            CGEventField::kCGScrollWheelEventFixedPtDeltaAxis2 => 94,
            CGEventField::kCGScrollWheelEventFixedPtDeltaAxis3 => 95,
            CGEventField::kCGScrollWheelEventPointDeltaAxis1 => 96,
            CGEventField::kCGScrollWheelEventPointDeltaAxis2 => 97,
            CGEventField::kCGScrollWheelEventPointDeltaAxis3 => 98,
            CGEventField::kCGScrollWheelEventScrollPhase => 99,
            CGEventField::kCGScrollWheelEventScrollCount => 100,
            CGEventField::kCGScrollWheelEventMomentumPhase => 123,
            CGEventField::kCGScrollWheelEventInstantMouser => 14,
            CGEventField::kCGTabletEventPointX => 15,
            CGEventField::kCGTabletEventPointY => 16,
            CGEventField::kCGTabletEventPointZ => 17,
            CGEventField::kCGTabletEventPointButtons => 18,
            CGEventField::kCGTabletEventPointPressure => 19,
            CGEventField::kCGTabletEventTiltX => 20,
            CGEventField::kCGTabletEventTiltY => 21,
            CGEventField::kCGTabletEventRotation => 22,
            CGEventField::kCGTabletEventTangentialPressure => 23,
            CGEventField::kCGTabletEventDeviceID => 24,
            CGEventField::kCGTabletEventVendor1 => 25,
            CGEventField::kCGTabletEventVendor2 => 26,
            CGEventField::kCGTabletEventVendor3 => 27,
            CGEventField::kCGTabletProximityEventVendorID => 28,
            CGEventField::kCGTabletProximityEventTabletID => 29,
            CGEventField::kCGTabletProximityEventPointerID => 30,
            CGEventField::kCGTabletProximityEventDeviceID => 31,
            CGEventField::kCGTabletProximityEventSystemTabletID => 32,
            CGEventField::kCGTabletProximityEventVendorPointerType => 33,
            CGEventField::kCGTabletProximityEventVendorPointerSerialNumber => 34,
            CGEventField::kCGTabletProximityEventVendorUniqueID => 35,
            CGEventField::kCGTabletProximityEventCapabilityMask => 36,
            CGEventField::kCGTabletProximityEventPointerType => 37,
            CGEventField::kCGTabletProximityEventEnterProximity => 38,
            CGEventField::kCGEventTargetProcessSerialNumber => 39,
            CGEventField::kCGEventTargetUnixProcessID => 40,
            CGEventField::kCGEventSourceUnixProcessID => 41,
            CGEventField::kCGEventSourceUserData => 42,
            CGEventField::kCGEventSourceUserID => 43,
            CGEventField::kCGEventSourceGroupID => 44,
            CGEventField::kCGEventSourceStateID => 45,
            CGEventField::kCGScrollWheelEventIsContinuous => 88,
            CGEventField::kCGMouseEventWindowUnderMousePointer => 91,
            CGEventField::kCGMouseEventWindowUnderMousePointerThatCanHandleThisEvent => 92,
        }
    }
}

/// The event mask that selects exactly the events of type `t`: bit number
/// `t.code()` set, all other bits clear.
pub fn event_mask_bit(t: CGEventType) -> (mask: u64)
    requires
        t.spec_code() < 64,
    ensures
        mask == 1u64 << t.spec_code(),
{
    let c: u32 = t.code();
    1u64 << c
}

} // verus!
