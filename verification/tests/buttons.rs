use basalt_widgets::button::{BtnHookColors, ButtonHookState, PointerEvent};
use basalt_widgets::check_box::CheckBoxState;
use basalt_widgets::switch_button::{KnobSide, SwitchButtonState};
use basalt_widgets::toggle_button::{label, placeholder_len, ToggleAction, ToggleButtonState, ToggleLook};

fn colors() -> BtnHookColors<u32> {
    BtnHookColors {
        text_clr: Some(1),
        back_clr: Some(2),
        vert_clr: None,
        h_text_clr: Some(3),
        h_back_clr: None,
        h_vert_clr: None,
        p_text_clr: None,
        p_back_clr: Some(4),
        p_vert_clr: None,
    }
}

#[test]
fn hook_hover_press_release() {
    let c = colors();
    let mut s = ButtonHookState::new();
    let a = s.on_event(PointerEvent::Enter, &c);
    assert_eq!(a.apply.map(|x| (x.text, x.back)), Some((Some(3), None)));
    assert!(!a.call_on_press);
    let a = s.on_event(PointerEvent::Press, &c);
    assert_eq!(a.apply.map(|x| x.back), Some(Some(4)));
    assert!(a.call_on_press);
    let a = s.on_event(PointerEvent::Leave, &c);
    assert!(a.apply.is_none());
    let a = s.on_event(PointerEvent::Release, &c);
    assert_eq!(a.apply.map(|x| (x.text, x.back)), Some((Some(1), Some(2))));
    let a = s.on_event(PointerEvent::Enter, &c);
    assert!(a.apply.is_some());
    s.on_event(PointerEvent::Press, &c);
    let a = s.on_event(PointerEvent::Release, &c);
    assert_eq!(a.apply.map(|x| x.text), Some(Some(3)));
    assert_eq!(s, ButtonHookState { inside: true, pressed: false });
}

#[test]
fn hook_without_hover_colors() {
    let c: BtnHookColors<u32> = BtnHookColors { text_clr: Some(1), ..BtnHookColors::none() };
    let mut s = ButtonHookState::new();
    assert!(s.on_event(PointerEvent::Enter, &c).apply.is_none());
    assert!(s.on_event(PointerEvent::Press, &c).apply.is_none());
    let a = s.on_event(PointerEvent::Release, &c);
    assert_eq!(a.apply.map(|x| x.text), Some(Some(1)));
}

#[test]
fn toggle_button_events() {
    let mut t = ToggleButtonState::new(false);
    assert_eq!(t.initial_look(), ToggleLook::Normal);
    assert_eq!(t.on_event(PointerEvent::Enter).look, Some(ToggleLook::Hover));
    let a = t.on_event(PointerEvent::Press);
    assert_eq!(a, ToggleAction { look: Some(ToggleLook::Active), changed_to: Some(true) });
    assert!(t.get());
    assert_eq!(t.on_event(PointerEvent::Release).look, None);
    let a = t.on_event(PointerEvent::Press);
    assert_eq!(a.changed_to, Some(false));
    assert_eq!(t.on_event(PointerEvent::Release).look, Some(ToggleLook::Hover));
    assert_eq!(t.on_event(PointerEvent::Leave).look, Some(ToggleLook::Normal));
    assert_eq!(t.toggle(), (true, ToggleAction { look: Some(ToggleLook::Active), changed_to: Some(true) }));
    // setting the state it already has tells no callback
    assert_eq!(t.set(true), ToggleAction { look: Some(ToggleLook::Active), changed_to: None });
    assert_eq!(t.set(false).changed_to, Some(false));
    assert_eq!(ToggleButtonState::new(true).initial_look(), ToggleLook::Active);
}

#[test]
fn toggle_button_texts() {
    assert_eq!(label(true, "On", "Off"), "On");
    assert_eq!(label(false, "On", "Off"), "Off");
    assert_eq!(placeholder_len("Off", "On"), 3);
    assert_eq!(placeholder_len("", "Enabled"), 7);
    assert_eq!(placeholder_len("é", "a"), 2);
}

#[test]
fn switch_button_state() {
    let mut s = SwitchButtonState::new(false);
    assert!(!s.get());
    assert_eq!(s.knob_side(), KnobSide::Left);
    assert!(s.toggle());
    assert_eq!(s.knob_side(), KnobSide::Right);
    assert!(s.set(false));
    assert_eq!(s.knob_side(), KnobSide::Left);
    assert!(!s.get());
    // setting the state it already has changes nothing
    assert!(!s.set(false));
    assert!(!s.get());
}

#[test]
fn check_box_state() {
    let mut c = CheckBoxState::new();
    assert!(!c.is_selected());
    assert!(c.select());
    assert!(!c.select());
    assert!(c.is_selected());
    assert!(!c.toggle_select());
    assert!(!c.unselect());
    assert!(c.toggle_select());
    assert!(c.unselect());
    assert!(!c.set_selected(false));
}
