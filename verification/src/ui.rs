//! Display-side timing and event routing: the backlight window, the
//! screen objects and their events, and what each event asks the rest
//! of the system to do.
//!
//! The display itself runs outside this crate; it hands in the time of
//! the last touch and the current time, and performs the returned
//! actions.

use vstd::prelude::*;

verus! {

/// The default backlight window, in seconds.
pub const DEFAULT_DELAY: u64 = 30;

/// Whether the last touch is still within a window of `duration_secs`
/// at `now_ms`.
pub open spec fn spec_recent_touch(duration_secs: u64, last_touch: Option<u64>, now_ms: u64) -> bool {
    last_touch matches Some(t) && now_ms - t < duration_secs * 1000
}

/// How long the display stays lit after a touch, and how long each scan
/// window lasts.
pub struct OnDuration {
    /// The window in seconds.
    pub duration_secs: u64,
}

impl OnDuration {
    /// The default window.
    pub fn new() -> (r: OnDuration)
        ensures
            r.duration_secs == DEFAULT_DELAY,
    {
        OnDuration { duration_secs: DEFAULT_DELAY }
    }

    /// Sets the window to `secs`.
    pub fn new_time(&mut self, secs: u64)
        ensures
            final(self).duration_secs == secs,
    {
        if secs != self.duration_secs {
            self.duration_secs = secs;
        }
    }

    /// Whether a touch happened within the window before `now_ms`.
    /// `last_touch` is the time of the last touch, if any; both times
    /// come from one monotonic millisecond clock.
    pub fn recent_touch(&self, last_touch: Option<u64>, now_ms: u64) -> (r: bool)
        requires
            last_touch matches Some(t) ==> t <= now_ms,
        ensures
            r == spec_recent_touch(self.duration_secs, last_touch, now_ms),
    {
        match last_touch {
            Option::Some(t) => {
                let elapsed_ms = now_ms - t;
                let r = elapsed_ms / 1000 < self.duration_secs;
                proof {
                    vstd::arithmetic::div_mod::lemma_fundamental_div_mod(elapsed_ms as int, 1000);
                }
                r
            },
            Option::None => false,
        }
    }

    /// The window in whole seconds.
    pub fn as_secs(&self) -> (r: u64)
        ensures
            r == self.duration_secs,
    {
        self.duration_secs
    }
}

/// The screen objects that report presses.
#[derive(Clone, Copy, PartialEq, Eq, Structural, Debug)]
pub enum UiObject {
    WifiBtn,
    MainScreen,
    GoMain,
    GoConfig,
}

/// The screen object behind a numeric press code.
pub open spec fn spec_ui_object_from_code(code: u8) -> Option<UiObject> {
    if code == 0 {
        Option::Some(UiObject::WifiBtn)
    } else if code == 1 {
        Option::Some(UiObject::MainScreen)
    } else if code == 2 {
        Option::Some(UiObject::GoMain)
    } else if code == 3 {
        Option::Some(UiObject::GoConfig)
    } else {
        Option::None
    }
}

impl UiObject {
    /// The numeric press code of this object.
    pub fn code(&self) -> (r: u8)
        ensures
            spec_ui_object_from_code(r) == Option::Some(*self),
    {
        match self {
            UiObject::WifiBtn => 0,
            UiObject::MainScreen => 1,
            UiObject::GoMain => 2,
            UiObject::GoConfig => 3,
        }
    }

    /// The screen object behind a press code, if the code names one.
    pub fn from_code(code: u8) -> (r: Option<UiObject>)
        ensures
            r == spec_ui_object_from_code(code),
    {
        if code == 0 {
            Option::Some(UiObject::WifiBtn)
        } else if code == 1 {
            Option::Some(UiObject::MainScreen)
        } else if code == 2 {
            Option::Some(UiObject::GoMain)
        } else if code == 3 {
            Option::Some(UiObject::GoConfig)
        } else {
            Option::None
        }
    }
}

/// An event from the display loop.
#[derive(Clone, Copy, PartialEq, Eq, Structural, Debug)]
pub enum UiEvent {
    /// The backlight just came back on.
    BacklightOn,
    /// A screen object was pressed.
    Pressed(UiObject),
}

/// What a display event asks the rest of the system to do, performed in
/// order by the caller.
#[derive(Clone, Copy, PartialEq, Eq, Structural, Debug)]
pub enum UiAction {
    /// Start scanning, if neither scanning nor connecting.
    StartScan,
    /// Stop scanning, if scanning.
    StopScan,
    /// Record the current time as the last touch.
    RecordTouch,
    /// Forget the last touch, so the backlight stays on.
    ClearTouch,
    /// Turn the backlight on.
    BacklightOn,
    StartWifi,
    StopWifi,
    /// Set the backlight window to this many seconds.
    SetBacklightDelay { secs: u64 },
}

/// Decides what one display event does: a fresh backlight resumes
/// scanning; a touch on the main screen keeps the light on; the network
/// button starts the access point; returning to the main screen applies
/// the configured window, records the touch, stops the network and
/// resumes scanning; entering the configuration screen pins the light
/// on and stops scanning.
pub fn ui_event_actions(event: UiEvent, backlight_delay_secs: u64) -> (r: Vec<UiAction>)
    ensures
        event is BacklightOn ==> r@ == seq![UiAction::StartScan],
        event matches UiEvent::Pressed(o) ==> r@ == (match o {
            UiObject::MainScreen => seq![UiAction::RecordTouch],
            UiObject::WifiBtn => seq![UiAction::StartWifi],
            UiObject::GoMain => seq![
                UiAction::SetBacklightDelay { secs: backlight_delay_secs },
                UiAction::RecordTouch,
                UiAction::StopWifi,
                UiAction::StartScan,
            ],
            UiObject::GoConfig => seq![
                UiAction::ClearTouch,
                UiAction::BacklightOn,
                UiAction::StopScan,
            ],
        }),
{
    match event {
        UiEvent::BacklightOn => vec![UiAction::StartScan],
        UiEvent::Pressed(o) => match o {
            UiObject::MainScreen => vec![UiAction::RecordTouch],
            UiObject::WifiBtn => vec![UiAction::StartWifi],
            UiObject::GoMain => vec![
                UiAction::SetBacklightDelay { secs: backlight_delay_secs },
                UiAction::RecordTouch,
                UiAction::StopWifi,
                UiAction::StartScan,
            ],
            UiObject::GoConfig => vec![
                UiAction::ClearTouch,
                UiAction::BacklightOn,
                UiAction::StopScan,
            ],
        },
    }
}

/// One step of the backlight keeper.
#[derive(Clone, Copy, PartialEq, Eq, Structural, Debug)]
pub enum BacklightStep {
    /// The window elapsed while the light is on: turn it off.
    TurnOff,
    /// A touch arrived while the light is off: turn it on and announce
    /// it, so scanning resumes.
    TurnOnAndNotify,
    /// Nothing to do.
    Keep,
}

/// Decides one step of the backlight keeper from the last touch, the
/// time, and whether the light is on. Without a recorded touch the
/// light is left alone (the configuration screen pins it on).
pub fn backlight_step(
    on_duration: &OnDuration,
    last_touch: Option<u64>,
    now_ms: u64,
    backlight_on: bool,
) -> (r: BacklightStep)
    requires
        last_touch matches Some(t) ==> t <= now_ms,
    ensures
        ({
            let touched = spec_recent_touch(on_duration.duration_secs, last_touch, now_ms);
            &&& last_touch is None ==> r == BacklightStep::Keep
            &&& last_touch is Some ==> r == (if !touched && backlight_on {
                BacklightStep::TurnOff
            } else if touched && !backlight_on {
                BacklightStep::TurnOnAndNotify
            } else {
                BacklightStep::Keep
            })
        }),
{
    match last_touch {
        Option::Some(_) => {
            let touched = on_duration.recent_touch(last_touch, now_ms);
            if !touched && backlight_on {
                BacklightStep::TurnOff
            } else if touched && !backlight_on {
                BacklightStep::TurnOnAndNotify
            } else {
                BacklightStep::Keep
            }
        },
        Option::None => BacklightStep::Keep,
    }
}

} // verus!
