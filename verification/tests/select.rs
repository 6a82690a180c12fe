use basalt_widgets::select::{focus_change, OptionLook, SelectState};

fn sample() -> SelectState {
    let mut s = SelectState::new();
    s.add_option(30, String::from("thirty"));
    s.add_option(10, String::from("ten"));
    s.add_option(20, String::from("twenty"));
    s
}

#[test]
fn select_options_sorted() {
    let mut s = sample();
    assert_eq!(s.ids(), vec![10, 20, 30]);
    s.add_option(20, String::from("TWENTY"));
    assert_eq!(s.ids(), vec![10, 20, 30]);
    assert_eq!(s.label_of(20), Some(String::from("TWENTY")));
    assert_eq!(s.label_of(25), None);
    assert_eq!(s.len(), 3);
}

#[test]
fn select_select() {
    let mut s = sample();
    assert_eq!(s.selected(), None);
    assert_eq!(s.select(20), Some(String::from("twenty")));
    assert_eq!(s.selected(), Some(20));
    assert_eq!(s.select(20), None);
    assert_eq!(s.select(99), Some(String::new()));
    assert_eq!(s.selected(), Some(99));
}

#[test]
fn select_popup_index() {
    let mut s = sample();
    assert_eq!(s.popup_index(), 0);
    s.select(30);
    assert_eq!(s.popup_index(), 2);
    s.select(5);
    assert_eq!(s.popup_index(), 0);
    s.set_drop_down_items(6);
    assert_eq!(s.popup_jump_index(5), 3);
    assert_eq!(s.popup_jump_index(1), 0);
    assert_eq!(s.popup_border_count(), 5);
    s.set_drop_down_items(0);
    assert_eq!(s.popup_border_count(), 0);
    let d = SelectState::new();
    assert_eq!(d.popup_jump_index(4), 3);
    assert_eq!(d.popup_border_count(), 2);
}

#[test]
fn select_option_looks() {
    let mut s = sample();
    s.select(20);
    assert_eq!(
        s.option_looks(),
        vec![
            OptionLook { border_bottom: true, highlighted: false },
            OptionLook { border_bottom: true, highlighted: true },
            OptionLook { border_bottom: false, highlighted: false },
        ]
    );
    assert_eq!(SelectState::new().option_looks(), vec![]);
}

#[test]
fn select_focus_change() {
    assert_eq!(focus_change(true, false), (false, true));
    assert_eq!(focus_change(true, true), (true, false));
    assert_eq!(focus_change(false, true), (true, false));
    assert_eq!(focus_change(false, false), (false, false));
}
