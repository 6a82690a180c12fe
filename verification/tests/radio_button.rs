use basalt_widgets::radio_button::{RadioButtonError, RadioEvent, RadioRegistry};

#[test]
fn radio_add_and_select() {
    let mut r = RadioRegistry::new();
    let g = r.new_group();
    let a = r.new_button();
    let b = r.new_button();
    assert_eq!(r.add(a, g).unwrap(), vec![]);
    assert_eq!(r.add(b, g).unwrap(), vec![]);
    assert_eq!(r.members(g), vec![a, b]);
    assert_eq!(r.group_of(a), Some(g));
    assert_eq!(r.selection(g), None);
    let ev = r.select(a, g).unwrap();
    assert_eq!(
        ev,
        vec![
            RadioEvent::Button { button: a, selected: true },
            RadioEvent::Group { group: g, selection: Some(a) }
        ]
    );
    let ev = r.select(b, g).unwrap();
    assert_eq!(
        ev,
        vec![
            RadioEvent::Button { button: a, selected: false },
            RadioEvent::Button { button: b, selected: true },
            RadioEvent::Group { group: g, selection: Some(b) }
        ]
    );
    assert!(!r.is_selected(a));
    assert!(r.is_selected(b));
    assert_eq!(r.selection(g), Some(b));
}

#[test]
fn radio_reselect_same() {
    let mut r = RadioRegistry::new();
    let g = r.new_group();
    let a = r.new_button();
    r.add(a, g).unwrap();
    r.select(a, g).unwrap();
    let ev = r.select(a, g).unwrap();
    assert_eq!(ev, vec![RadioEvent::Group { group: g, selection: Some(a) }]);
    assert!(r.is_selected(a));
}

#[test]
fn radio_errors() {
    let mut r = RadioRegistry::new();
    let g = r.new_group();
    let h = r.new_group();
    let a = r.new_button();
    assert_eq!(r.select(a, g), Err(RadioButtonError::NotInGroup));
    assert_eq!(r.remove(a, g), Err(RadioButtonError::NotInGroup));
    r.add(a, g).unwrap();
    assert_eq!(r.add(a, g), Err(RadioButtonError::AlreadyInGroup));
    assert_eq!(r.add_selected(a, g), Err(RadioButtonError::AlreadyInGroup));
    assert_eq!(r.select(a, h), Err(RadioButtonError::NotInGroup));
}

#[test]
fn radio_remove_selected() {
    let mut r = RadioRegistry::new();
    let g = r.new_group();
    let a = r.new_button();
    let b = r.new_button();
    r.add(a, g).unwrap();
    r.add_selected(b, g).unwrap();
    assert_eq!(r.remove(a, g).unwrap(), vec![]);
    assert_eq!(r.selection(g), Some(b));
    assert_eq!(
        r.remove(b, g).unwrap(),
        vec![
            RadioEvent::Button { button: b, selected: false },
            RadioEvent::Group { group: g, selection: None }
        ]
    );
    assert_eq!(r.selection(g), None);
    assert_eq!(r.group_of(b), None);
    // the removed button is shown as not selected
    assert!(!r.is_selected(b));
    assert_eq!(r.members(g), Vec::<usize>::new());
}

#[test]
fn radio_move_between_groups() {
    let mut r = RadioRegistry::new();
    let g = r.new_group();
    let h = r.new_group();
    let a = r.new_button();
    r.add_selected(a, g).unwrap();
    let c = r.new_button();
    r.add_selected(c, h).unwrap();
    let ev = r.add(a, h).unwrap();
    assert_eq!(
        ev,
        vec![
            RadioEvent::Button { button: a, selected: false },
            RadioEvent::Group { group: g, selection: None }
        ]
    );
    assert_eq!(r.group_of(a), Some(h));
    // `h` keeps its one selected member
    assert!(!r.is_selected(a));
    assert!(r.is_selected(c));
    assert_eq!(r.selection(h), Some(c));
    assert_eq!(r.members(g), Vec::<usize>::new());
    assert_eq!(r.members(h), vec![c, a]);
    assert_eq!(r.next_id(h), 2);
    assert_eq!(r.next_id(g), 1);
}

#[test]
fn radio_clear_and_unselect() {
    let mut r = RadioRegistry::new();
    let g = r.new_group();
    let a = r.new_button();
    r.add_selected(a, g).unwrap();
    let ev = r.clear_selection(g);
    assert_eq!(
        ev,
        vec![
            RadioEvent::Button { button: a, selected: false },
            RadioEvent::Group { group: g, selection: None }
        ]
    );
    assert_eq!(r.clear_selection(g), vec![]);
    let ev = r.button_select(a);
    assert_eq!(ev.last(), Some(&RadioEvent::Group { group: g, selection: Some(a) }));
    let ev = r.button_unselect(a);
    assert_eq!(ev.last(), Some(&RadioEvent::Group { group: g, selection: None }));
    assert_eq!(r.button_unselect(a), vec![]);
}

#[test]
fn radio_button_without_group() {
    let mut r = RadioRegistry::new();
    let (a, ev) = r.build_button(None, true);
    assert_eq!(ev, vec![RadioEvent::Button { button: a, selected: true }]);
    assert!(r.is_selected(a));
    assert_eq!(r.button_select(a), vec![]);
    assert_eq!(r.button_unselect(a), vec![RadioEvent::Button { button: a, selected: false }]);
    let (b, ev) = r.build_button(None, false);
    assert_eq!(ev, vec![]);
    assert!(!r.is_selected(b));
    assert_eq!(r.num_buttons(), 2);
    assert_eq!(r.num_groups(), 0);
}

#[test]
fn radio_build_in_group() {
    let mut r = RadioRegistry::new();
    let g = r.new_group();
    let (a, _) = r.build_button(Some(g), false);
    let (b, ev) = r.build_button(Some(g), true);
    assert_eq!(
        ev,
        vec![
            RadioEvent::Button { button: b, selected: true },
            RadioEvent::Group { group: g, selection: Some(b) }
        ]
    );
    assert_eq!(r.members(g), vec![a, b]);
    assert_eq!(r.selection(g), Some(b));
}

#[test]
fn radio_by_value() {
    let mut r = RadioRegistry::new();
    let g = r.new_group();
    let values = ["a", "b", "b"];
    let mut buttons = Vec::new();
    for _ in values {
        let (b, _) = r.build_button(Some(g), false);
        buttons.push(b);
    }
    let matches: Vec<bool> = values.iter().map(|v| *v == "b").collect();
    r.select_first_matching(g, &matches);
    assert_eq!(r.selection(g), Some(buttons[1]));
    let none: Vec<bool> = values.iter().map(|v| *v == "z").collect();
    assert_eq!(r.select_first_matching(g, &none), vec![]);
    assert_eq!(r.selection(g), Some(buttons[1]));
    let (removed, ev) = r.remove_first_matching(g, &matches);
    assert!(removed);
    assert_eq!(
        ev,
        vec![
            RadioEvent::Button { button: buttons[1], selected: false },
            RadioEvent::Group { group: g, selection: None }
        ]
    );
    assert_eq!(r.members(g), vec![buttons[0], buttons[2]]);
    let (removed, _) = r.remove_first_matching(g, &vec![false, false]);
    assert!(!removed);
}

#[test]
fn radio_add_unselects_lone_button() {
    let mut r = RadioRegistry::new();
    let g = r.new_group();
    let (a, _) = r.build_button(None, true);
    let (b, _) = r.build_button(Some(g), true);
    let ev = r.add(a, g).unwrap();
    assert_eq!(ev, vec![RadioEvent::Button { button: a, selected: false }]);
    assert!(!r.is_selected(a));
    assert_eq!(r.selection(g), Some(b));
}
