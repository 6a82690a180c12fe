//! The enabled state of a toggle button and the look it shows under the pointer.

use vstd::prelude::*;
use crate::button::PointerEvent;
use vstd::string::StringSliceAdditionalSpecFns;

verus! {

/// The look of a toggle button.
#[derive(Clone, Copy, Debug, PartialEq, Eq, Structural)]
pub enum ToggleLook {
    /// The plain background and text colors.
    Normal,
    /// The hover background and text colors.
    Hover,
    /// The colors of an enabled or just-set button.
    Active,
}

/// What to do after an event.
#[derive(Clone, Copy, Debug, PartialEq, Eq, Structural)]
pub struct ToggleAction {
    /// The look to show, where it changes.
    pub look: Option<ToggleLook>,
    /// The enabled state to show and tell the callbacks of, where the state was set.
    pub changed_to: Option<bool>,
}

/// The state of a toggle button.
#[derive(Clone, Copy, Debug, PartialEq, Eq, Structural)]
pub struct ToggleButtonState {
    pub enabled: bool,
    pub inside: bool,
    pub pressed: bool,
}

/// The state after `ev`: pressing toggles the enabled state.
pub open spec fn spec_toggle_state(s: ToggleButtonState, ev: PointerEvent) -> ToggleButtonState {
    match ev {
        PointerEvent::Enter => ToggleButtonState { inside: true, ..s },
        PointerEvent::Leave => ToggleButtonState { inside: false, ..s },
        PointerEvent::Press => ToggleButtonState { pressed: true, enabled: !s.enabled, ..s },
        PointerEvent::Release => ToggleButtonState { pressed: false, ..s },
    }
}

/// What `ev` does in state `s`: while disabled and not pressed, entering and leaving show the
/// hover and the normal look; pressing sets the toggled state, showing the active look;
/// releasing while disabled shows the hover look where the pointer is inside, else the normal
/// look.
pub open spec fn spec_toggle_action(s: ToggleButtonState, ev: PointerEvent) -> ToggleAction {
    match ev {
        PointerEvent::Enter => ToggleAction {
            look: if !s.pressed && !s.enabled {
                Some(ToggleLook::Hover)
            } else {
                None
            },
            changed_to: None,
        },
        PointerEvent::Leave => ToggleAction {
            look: if !s.pressed && !s.enabled {
                Some(ToggleLook::Normal)
            } else {
                None
            },
            changed_to: None,
        },
        PointerEvent::Press => ToggleAction {
            look: Some(ToggleLook::Active),
            changed_to: Some(!s.enabled),
        },
        PointerEvent::Release => ToggleAction {
            look: if s.enabled {
                None
            } else if s.inside {
                Some(ToggleLook::Hover)
            } else {
                Some(ToggleLook::Normal)
            },
            changed_to: None,
        },
    }
}

impl ToggleButtonState {
    /// A button with the given enabled state, pointer outside and not pressed.
    pub fn new(enabled: bool) -> (s: ToggleButtonState)
        ensures
            s == (ToggleButtonState { enabled, inside: false, pressed: false }),
    {
        ToggleButtonState { enabled, inside: false, pressed: false }
    }

    /// The look first shown: active where enabled, else normal.
    pub fn initial_look(&self) -> (l: ToggleLook)
        ensures
            l == (if self.enabled {
                ToggleLook::Active
            } else {
                ToggleLook::Normal
            }),
    {
        if self.enabled {
            ToggleLook::Active
        } else {
            ToggleLook::Normal
        }
    }

    /// Get the current enabled state.
    pub fn get(&self) -> (r: bool)
        ensures
            r == self.enabled,
    {
        self.enabled
    }

    /// Set the enabled state: the button shows the active look and the state's text, and where
    /// the state changed the callbacks are told.
    pub fn set(&mut self, enabled: bool) -> (a: ToggleAction)
        ensures
            *final(self) == (ToggleButtonState { enabled, ..*old(self) }),
            a == (ToggleAction {
                look: Some(ToggleLook::Active),
                changed_to: if enabled != old(self).enabled {
                    Some(enabled)
                } else {
                    None
                },
            }),
    {
        let changed_to = if enabled != self.enabled {
            Some(enabled)
        } else {
            None
        };
        self.enabled = enabled;
        ToggleAction { look: Some(ToggleLook::Active), changed_to }
    }

    /// Toggle the enabled state; returns the new state and the action of setting it.
    pub fn toggle(&mut self) -> (r: (bool, ToggleAction))
        ensures
            r.0 == !old(self).enabled,
            *final(self) == (ToggleButtonState { enabled: r.0, ..*old(self) }),
            r.1 == (ToggleAction { look: Some(ToggleLook::Active), changed_to: Some(r.0) }),
    {
        let enabled = !self.enabled;
        let a = self.set(enabled);
        (enabled, a)
    }

    /// Takes `ev` into account and says what to do.
    pub fn on_event(&mut self, ev: PointerEvent) -> (a: ToggleAction)
        ensures
            *final(self) == spec_toggle_state(*old(self), ev),
            a == spec_toggle_action(*old(self), ev),
    {
        match ev {
            PointerEvent::Enter => {
                self.inside = true;
                let look = if !self.pressed && !self.enabled {
                    Some(ToggleLook::Hover)
                } else {
                    None
                };
                ToggleAction { look, changed_to: None }
            },
            PointerEvent::Leave => {
                self.inside = false;
                let look = if !self.pressed && !self.enabled {
                    Some(ToggleLook::Normal)
                } else {
                    None
                };
                ToggleAction { look, changed_to: None }
            },
            PointerEvent::Press => {
                self.pressed = true;
                let (_, a) = self.toggle();
                a
            },
            PointerEvent::Release => {
                self.pressed = false;
                let look = if self.enabled {
                    None
                } else if self.inside {
                    Some(ToggleLook::Hover)
                } else {
                    Some(ToggleLook::Normal)
                };
                ToggleAction { look, changed_to: None }
            },
        }
    }
}

/// The text shown for an enabled state: the enabled text where enabled, else the disabled
/// text.
pub fn label<'a>(enabled: bool, enabled_text: &'a str, disabled_text: &'a str) -> (r: &'a str)
    ensures
        r@ == (if enabled {
            enabled_text@
        } else {
            disabled_text@
        }),
{
    if enabled {
        enabled_text
    } else {
        disabled_text
    }
}

/// The number of placeholder characters used to size the button: the byte length of the
/// longer of the two texts.
pub fn placeholder_len(disabled_text: &str, enabled_text: &str) -> (n: usize)
    ensures
        n as int == vstd::math::max(
            (disabled_text.spec_bytes().len() as usize) as int,
            (enabled_text.spec_bytes().len() as usize) as int,
        ),
{
    let d = disabled_text.len();
    let e = enabled_text.len();
    if d >= e {
        d
    } else {
        e
    }
}

/// Two presses give back the enabled state, and each press tells the callbacks of the new
/// state.
pub proof fn law_toggle_twice(s: ToggleButtonState)
    ensures
        spec_toggle_state(spec_toggle_state(s, PointerEvent::Press), PointerEvent::Press).enabled
            == s.enabled,
        spec_toggle_action(s, PointerEvent::Press).changed_to == Some(!s.enabled),
{
}

/// Moving the pointer in or out changes the look only of a button that is disabled and not
/// pressed: entering shows the hover look and leaving the normal look. An enabled or pressed
/// button keeps its look. Neither tells the callbacks, nor changes the enabled state or the
/// press.
pub proof fn law_toggle_hover(s: ToggleButtonState)
    ensures
        ({
            let enter = spec_toggle_action(s, PointerEvent::Enter);
            let leave = spec_toggle_action(s, PointerEvent::Leave);
            &&& s.enabled || s.pressed ==> enter.look is None && leave.look is None
            &&& !s.enabled && !s.pressed ==> enter.look == Some(ToggleLook::Hover) && leave.look
                == Some(ToggleLook::Normal)
            &&& enter.changed_to is None && leave.changed_to is None
            &&& spec_toggle_state(s, PointerEvent::Enter) == (ToggleButtonState {
                inside: true,
                ..s
            })
            &&& spec_toggle_state(s, PointerEvent::Leave) == (ToggleButtonState {
                inside: false,
                ..s
            })
        }),
{
}

/// A press flips the enabled state, shows the active look and tells the callbacks of the new
/// state; a release ends the press, tells no callback, and keeps the look of an enabled button
/// or shows a disabled one's hover look inside and normal look outside.
pub proof fn law_toggle_press_release(s: ToggleButtonState)
    ensures
        ({
            let press = spec_toggle_action(s, PointerEvent::Press);
            let release = spec_toggle_action(s, PointerEvent::Release);
            let after = spec_toggle_state(s, PointerEvent::Press);
            &&& after == (ToggleButtonState { enabled: !s.enabled, pressed: true, inside: s.inside })
            &&& press.look == Some(ToggleLook::Active)
            &&& press.changed_to == Some(!s.enabled)
            &&& spec_toggle_state(s, PointerEvent::Release) == (ToggleButtonState {
                pressed: false,
                ..s
            })
            &&& release.changed_to is None
            &&& s.enabled ==> release.look is None
            &&& !s.enabled && s.inside ==> release.look == Some(ToggleLook::Hover)
            &&& !s.enabled && !s.inside ==> release.look == Some(ToggleLook::Normal)
        }),
{
}

/// After entering, pressing (which enables a disabled button), releasing and leaving, the
/// button is enabled and shows the active look: leaving does not give it the normal look.
pub proof fn law_toggle_click_keeps_active(s: ToggleButtonState)
    requires
        !s.enabled,
        !s.pressed,
    ensures
        ({
            let s1 = spec_toggle_state(s, PointerEvent::Enter);
            let s2 = spec_toggle_state(s1, PointerEvent::Press);
            let s3 = spec_toggle_state(s2, PointerEvent::Release);
            &&& s3.enabled
            &&& spec_toggle_action(s2, PointerEvent::Release).look is None
            &&& spec_toggle_action(s3, PointerEvent::Leave).look is None
        }),
{
}

} // verus!
