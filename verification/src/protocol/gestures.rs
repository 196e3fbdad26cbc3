//! Touch gestures, the functions they can trigger and touch sensitivity,
//! with their wire values.
use vstd::prelude::*;

verus! {

/// A touch gesture on one bud.
#[derive(Debug, Clone, Copy, PartialEq, Eq, Structural)]
pub enum TouchGesture {
    LeftSingleTap,
    RightSingleTap,
    LeftDoubleTap,
    RightDoubleTap,
    LeftTripleTap,
    RightTripleTap,
    LeftLongPress,
    RightLongPress,
}

/// The wire value of a touch gesture.
pub open spec fn touch_gesture_value(x: TouchGesture) -> u8 {
    match x {
        TouchGesture::LeftSingleTap => 1,
        TouchGesture::RightSingleTap => 2,
        TouchGesture::LeftDoubleTap => 3,
        TouchGesture::RightDoubleTap => 4,
        TouchGesture::LeftTripleTap => 5,
        TouchGesture::RightTripleTap => 6,
        TouchGesture::LeftLongPress => 7,
        TouchGesture::RightLongPress => 8,
    }
}

impl TouchGesture {
    /// The wire value.
    pub fn as_u8(self) -> (v: u8)
        ensures
            v == touch_gesture_value(self),
    {
        match self {
            Self::LeftSingleTap => 1,
            Self::RightSingleTap => 2,
            Self::LeftDoubleTap => 3,
            Self::RightDoubleTap => 4,
            Self::LeftTripleTap => 5,
            Self::RightTripleTap => 6,
            Self::LeftLongPress => 7,
            Self::RightLongPress => 8,
        }
    }

    /// The value with a given wire value, if any.
    pub fn from_u8(value: u8) -> (r: Option<Self>)
        ensures
            r matches Some(x) ==> touch_gesture_value(x) == value,
            r is None ==> forall|x: TouchGesture| touch_gesture_value(x) != value,
    {
        match value {
            1 => Some(Self::LeftSingleTap),
            2 => Some(Self::RightSingleTap),
            3 => Some(Self::LeftDoubleTap),
            4 => Some(Self::RightDoubleTap),
            5 => Some(Self::LeftTripleTap),
            6 => Some(Self::RightTripleTap),
            7 => Some(Self::LeftLongPress),
            8 => Some(Self::RightLongPress),
            _ => None,
        }
    }
}

/// What a gesture does.
#[derive(Debug, Clone, Copy, PartialEq, Eq, Structural)]
pub enum GestureFunction {
    Nothing,
    VoiceRecall,
    Assistant,
    PreviousTrack,
    NextTrack,
    VolumeUp,
    VolumeDown,
    PlayPause,
    GameMode,
    AncModeSwitch,
}

/// The wire value of a gesture function.
pub open spec fn gesture_function_value(x: GestureFunction) -> u8 {
    match x {
        GestureFunction::Nothing => 0,
        GestureFunction::VoiceRecall => 1,
        GestureFunction::Assistant => 2,
        GestureFunction::PreviousTrack => 3,
        GestureFunction::NextTrack => 4,
        GestureFunction::VolumeUp => 5,
        GestureFunction::VolumeDown => 6,
        GestureFunction::PlayPause => 7,
        GestureFunction::GameMode => 8,
        GestureFunction::AncModeSwitch => 9,
    }
}

impl GestureFunction {
    /// The wire value.
    pub fn as_u8(self) -> (v: u8)
        ensures
            v == gesture_function_value(self),
    {
        match self {
            Self::Nothing => 0,
            Self::VoiceRecall => 1,
            Self::Assistant => 2,
            Self::PreviousTrack => 3,
            Self::NextTrack => 4,
            Self::VolumeUp => 5,
            Self::VolumeDown => 6,
            Self::PlayPause => 7,
            Self::GameMode => 8,
            Self::AncModeSwitch => 9,
        }
    }

    /// The value with a given wire value, if any.
    pub fn from_u8(value: u8) -> (r: Option<Self>)
        ensures
            r matches Some(x) ==> gesture_function_value(x) == value,
            r is None ==> forall|x: GestureFunction| gesture_function_value(x) != value,
    {
        match value {
            0 => Some(Self::Nothing),
            1 => Some(Self::VoiceRecall),
            2 => Some(Self::Assistant),
            3 => Some(Self::PreviousTrack),
            4 => Some(Self::NextTrack),
            5 => Some(Self::VolumeUp),
            6 => Some(Self::VolumeDown),
            7 => Some(Self::PlayPause),
            8 => Some(Self::GameMode),
            9 => Some(Self::AncModeSwitch),
            _ => None,
        }
    }
}

/// Touch sensitivity of the buds.
#[derive(Debug, Clone, Copy, PartialEq, Eq, Structural)]
pub enum TouchSensitivity {
    Normal,
    Low,
    High,
}

/// The wire value of a touch sensitivity.
pub open spec fn touch_sensitivity_value(x: TouchSensitivity) -> u8 {
    match x {
        TouchSensitivity::Normal => 0,
        TouchSensitivity::Low => 1,
        TouchSensitivity::High => 2,
    }
}

impl TouchSensitivity {
    /// The wire value.
    pub fn as_u8(self) -> (v: u8)
        ensures
            v == touch_sensitivity_value(self),
    {
        match self {
            Self::Normal => 0,
            Self::Low => 1,
            Self::High => 2,
        }
    }

    /// The value with a given wire value, if any.
    pub fn from_u8(value: u8) -> (r: Option<Self>)
        ensures
            r matches Some(x) ==> touch_sensitivity_value(x) == value,
            r is None ==> forall|x: TouchSensitivity| touch_sensitivity_value(x) != value,
    {
        match value {
            0 => Some(Self::Normal),
            1 => Some(Self::Low),
            2 => Some(Self::High),
            _ => None,
        }
    }
}

/// Distinct gestures, functions and sensitivities have distinct wire
/// values, so reading a value back gives what was written.
pub proof fn law_wire_values_distinct()
    ensures
        forall|x: TouchGesture, y: TouchGesture|
            #[trigger] touch_gesture_value(x) == #[trigger] touch_gesture_value(y) ==> x == y,
        forall|x: GestureFunction, y: GestureFunction|
            #[trigger] gesture_function_value(x) == #[trigger] gesture_function_value(y) ==> x == y,
        forall|x: TouchSensitivity, y: TouchSensitivity|
            #[trigger] touch_sensitivity_value(x) == #[trigger] touch_sensitivity_value(y) ==> x == y,
{
}

} // verus!
