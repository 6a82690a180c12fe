//! How a pressable area reacts to the pointer: which colors it shows and when it is pressed.

use vstd::prelude::*;

verus! {

/// The colors a pressable area shows; each is optional and left as it is where `None`.
///
/// `text_clr`, `back_clr` and `vert_clr` are shown normally, the `h_` colors while the pointer
/// hovers, the `p_` colors while pressed.
#[derive(Clone, Copy, Debug)]
pub struct BtnHookColors<C> {
    pub text_clr: Option<C>,
    pub back_clr: Option<C>,
    pub vert_clr: Option<C>,
    pub h_text_clr: Option<C>,
    pub h_back_clr: Option<C>,
    pub h_vert_clr: Option<C>,
    pub p_text_clr: Option<C>,
    pub p_back_clr: Option<C>,
    pub p_vert_clr: Option<C>,
}

/// Colors to apply: the text color, the background color and the color of custom vertices.
#[derive(Clone, Copy, Debug)]
pub struct ColorSet<C> {
    pub text: Option<C>,
    pub back: Option<C>,
    pub vert: Option<C>,
}

/// What the pointer did.
#[derive(Clone, Copy, Debug, PartialEq, Eq, Structural)]
pub enum PointerEvent {
    /// The pointer entered the area.
    Enter,
    /// The pointer left the area.
    Leave,
    /// The left button was pressed on the area.
    Press,
    /// The left button was released.
    Release,
}

/// What to do after an event: colors to apply, and whether the press callback runs.
#[derive(Clone, Copy, Debug)]
pub struct HookAction<C> {
    pub apply: Option<ColorSet<C>>,
    pub call_on_press: bool,
}

/// Whether the pointer is inside the area and whether it is pressed.
#[derive(Clone, Copy, Debug, PartialEq, Eq, Structural)]
pub struct ButtonHookState {
    pub inside: bool,
    pub pressed: bool,
}

impl<C> BtnHookColors<C> {
    pub open spec fn spec_normal(self) -> ColorSet<C> {
        ColorSet { text: self.text_clr, back: self.back_clr, vert: self.vert_clr }
    }

    pub open spec fn spec_hover(self) -> ColorSet<C> {
        ColorSet { text: self.h_text_clr, back: self.h_back_clr, vert: self.h_vert_clr }
    }

    pub open spec fn spec_press(self) -> ColorSet<C> {
        ColorSet { text: self.p_text_clr, back: self.p_back_clr, vert: self.p_vert_clr }
    }

    /// Some hover color is given.
    pub open spec fn spec_has_hover(self) -> bool {
        self.h_text_clr is Some || self.h_back_clr is Some || self.h_vert_clr is Some
    }

    /// Some press color is given.
    pub open spec fn spec_has_press(self) -> bool {
        self.p_text_clr is Some || self.p_back_clr is Some || self.p_vert_clr is Some
    }
}

impl<C: Copy> BtnHookColors<C> {
    /// No colors.
    pub fn none() -> (c: BtnHookColors<C>)
        ensures
            c.text_clr is None && c.back_clr is None && c.vert_clr is None,
            c.h_text_clr is None && c.h_back_clr is None && c.h_vert_clr is None,
            c.p_text_clr is None && c.p_back_clr is None && c.p_vert_clr is None,
    {
        BtnHookColors {
            text_clr: None,
            back_clr: None,
            vert_clr: None,
            h_text_clr: None,
            h_back_clr: None,
            h_vert_clr: None,
            p_text_clr: None,
            p_back_clr: None,
            p_vert_clr: None,
        }
    }

    /// The colors shown normally.
    pub fn normal(&self) -> (c: ColorSet<C>)
        ensures
            c == self.spec_normal(),
    {
        ColorSet { text: self.text_clr, back: self.back_clr, vert: self.vert_clr }
    }

    /// The colors shown while the pointer hovers.
    pub fn hover(&self) -> (c: ColorSet<C>)
        ensures
            c == self.spec_hover(),
    {
        ColorSet { text: self.h_text_clr, back: self.h_back_clr, vert: self.h_vert_clr }
    }

    /// The colors shown while pressed.
    pub fn press(&self) -> (c: ColorSet<C>)
        ensures
            c == self.spec_press(),
    {
        ColorSet { text: self.p_text_clr, back: self.p_back_clr, vert: self.p_vert_clr }
    }

    /// Whether some hover color is given.
    pub fn has_hover(&self) -> (r: bool)
        ensures
            r == self.spec_has_hover(),
    {
        self.h_text_clr.is_some() || self.h_back_clr.is_some() || self.h_vert_clr.is_some()
    }

    /// Whether some press color is given.
    pub fn has_press(&self) -> (r: bool)
        ensures
            r == self.spec_has_press(),
    {
        self.p_text_clr.is_some() || self.p_back_clr.is_some() || self.p_vert_clr.is_some()
    }
}

/// The state after `ev`.
pub open spec fn spec_hook_state(s: ButtonHookState, ev: PointerEvent) -> ButtonHookState {
    match ev {
        PointerEvent::Enter => ButtonHookState { inside: true, ..s },
        PointerEvent::Leave => ButtonHookState { inside: false, ..s },
        PointerEvent::Press => ButtonHookState { pressed: true, ..s },
        PointerEvent::Release => ButtonHookState { pressed: false, ..s },
    }
}

/// The colors applied on `ev` in state `s`: entering and leaving show the hover and the normal
/// colors, unless pressed or no hover color is given; pressing shows the press colors where one
/// is given; releasing shows the hover colors where the pointer is inside and a hover color is
/// given, else the normal colors.
pub open spec fn spec_hook_apply<C>(
    s: ButtonHookState,
    ev: PointerEvent,
    colors: BtnHookColors<C>,
) -> Option<ColorSet<C>> {
    match ev {
        PointerEvent::Enter => if !s.pressed && colors.spec_has_hover() {
            Some(colors.spec_hover())
        } else {
            None
        },
        PointerEvent::Leave => if !s.pressed && colors.spec_has_hover() {
            Some(colors.spec_normal())
        } else {
            None
        },
        PointerEvent::Press => if colors.spec_has_press() {
            Some(colors.spec_press())
        } else {
            None
        },
        PointerEvent::Release => if s.inside && colors.spec_has_hover() {
            Some(colors.spec_hover())
        } else {
            Some(colors.spec_normal())
        },
    }
}

impl ButtonHookState {
    /// Neither inside nor pressed.
    pub fn new() -> (s: ButtonHookState)
        ensures
            !s.inside && !s.pressed,
    {
        ButtonHookState { inside: false, pressed: false }
    }

    /// Takes `ev` into account and says what to do.
    pub fn on_event<C: Copy>(&mut self, ev: PointerEvent, colors: &BtnHookColors<C>) -> (r:
        HookAction<C>)
        ensures
            *final(self) == spec_hook_state(*old(self), ev),
            r.apply == spec_hook_apply(*old(self), ev, *colors),
            r.call_on_press == (ev == PointerEvent::Press),
    {
        match ev {
            PointerEvent::Enter => {
                self.inside = true;
                let apply = if !self.pressed && colors.has_hover() {
                    Some(colors.hover())
                } else {
                    None
                };
                HookAction { apply, call_on_press: false }
            },
            PointerEvent::Leave => {
                self.inside = false;
                let apply = if !self.pressed && colors.has_hover() {
                    Some(colors.normal())
                } else {
                    None
                };
                HookAction { apply, call_on_press: false }
            },
            PointerEvent::Press => {
                self.pressed = true;
                let apply = if colors.has_press() {
                    Some(colors.press())
                } else {
                    None
                };
                HookAction { apply, call_on_press: true }
            },
            PointerEvent::Release => {
                self.pressed = false;
                let apply = if self.inside && colors.has_hover() {
                    Some(colors.hover())
                } else {
                    Some(colors.normal())
                };
                HookAction { apply, call_on_press: false }
            },
        }
    }
}

/// A release always shows colors: the hover colors exactly when the pointer is inside and a
/// hover color is given. Moving in or out while pressed shows nothing, so the press colors stay
/// until the release.
pub proof fn law_hook_release_and_hold<C>(s: ButtonHookState, colors: BtnHookColors<C>)
    ensures
        spec_hook_apply(s, PointerEvent::Release, colors) == (if s.inside && colors.spec_has_hover() {
            Some(colors.spec_hover())
        } else {
            Some(colors.spec_normal())
        }),
        s.pressed ==> spec_hook_apply(s, PointerEvent::Enter, colors) is None
            && spec_hook_apply(s, PointerEvent::Leave, colors) is None,
        !spec_hook_state(s, PointerEvent::Release).pressed,
        spec_hook_state(s, PointerEvent::Press).pressed,
        spec_hook_state(s, PointerEvent::Enter).inside,
        !spec_hook_state(s, PointerEvent::Leave).inside,
{
}

/// The colors each event shows, by field. Entering shows the hover colors and leaving the
/// normal ones (`text_clr`, `back_clr`, `vert_clr`), each only while not pressed and where some
/// hover color is given; pressing shows the press colors where one is given and asks for the
/// press callback; releasing shows the hover colors where the pointer is inside and a hover
/// color is given, else the normal ones.
pub proof fn law_hook_colors<C>(s: ButtonHookState, colors: BtnHookColors<C>)
    ensures
        ({
            let has_hover = colors.h_text_clr is Some || colors.h_back_clr is Some
                || colors.h_vert_clr is Some;
            let has_press = colors.p_text_clr is Some || colors.p_back_clr is Some
                || colors.p_vert_clr is Some;
            let normal = ColorSet {
                text: colors.text_clr,
                back: colors.back_clr,
                vert: colors.vert_clr,
            };
            let hover = ColorSet {
                text: colors.h_text_clr,
                back: colors.h_back_clr,
                vert: colors.h_vert_clr,
            };
            let press = ColorSet {
                text: colors.p_text_clr,
                back: colors.p_back_clr,
                vert: colors.p_vert_clr,
            };
            &&& spec_hook_apply(s, PointerEvent::Enter, colors) == (if !s.pressed && has_hover {
                Some(hover)
            } else {
                None
            })
            &&& spec_hook_apply(s, PointerEvent::Leave, colors) == (if !s.pressed && has_hover {
                Some(normal)
            } else {
                None
            })
            &&& spec_hook_apply(s, PointerEvent::Press, colors) == (if has_press {
                Some(press)
            } else {
                None
            })
            &&& spec_hook_apply(s, PointerEvent::Release, colors) == (if s.inside && has_hover {
                Some(hover)
            } else {
                Some(normal)
            })
        }),
{
}

/// Entering and then leaving, without a press, shows the hover colors and then gives back the
/// normal colors, and leaves the pointer outside and the area not pressed.
pub proof fn law_hook_enter_leave<C>(s: ButtonHookState, colors: BtnHookColors<C>)
    requires
        !s.pressed,
        colors.h_text_clr is Some || colors.h_back_clr is Some || colors.h_vert_clr is Some,
    ensures
        ({
            let s1 = spec_hook_state(s, PointerEvent::Enter);
            let s2 = spec_hook_state(s1, PointerEvent::Leave);
            &&& spec_hook_apply(s, PointerEvent::Enter, colors) == Some(
                ColorSet { text: colors.h_text_clr, back: colors.h_back_clr, vert: colors.h_vert_clr },
            )
            &&& spec_hook_apply(s1, PointerEvent::Leave, colors) == Some(
                ColorSet { text: colors.text_clr, back: colors.back_clr, vert: colors.vert_clr },
            )
            &&& s2 == ButtonHookState { inside: false, pressed: false }
        }),
{
}

} // verus!
