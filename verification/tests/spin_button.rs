use basalt_widgets::modifiers::Modifiers;
use basalt_widgets::spin_button::{
    parse_i32, EntryKey, SpinButtonError, SpinButtonProps, SpinButtonState, ValueChange,
};

fn chars(s: &str) -> Vec<char> {
    s.chars().collect()
}

#[test]
fn spin_props_defaults_and_setters() {
    let p = SpinButtonProps::new();
    assert_eq!((p.min, p.max, p.val), (0, 0, 0));
    assert_eq!((p.small_step, p.medium_step, p.large_step), (1, 1, 1));
    let p = p.min_value(-5).max_value(100).set_value(7).small_step(2).medium_step(5).large_step(10);
    assert_eq!((p.min, p.max, p.val), (-5, 100, 7));
    assert_eq!((p.small_step, p.medium_step, p.large_step), (2, 5, 10));
}

#[test]
fn spin_build_errors() {
    let p = SpinButtonProps::new().min_value(10).max_value(5).set_value(7);
    assert_eq!(p.validate(), Err(SpinButtonError::MaxLessThanMin));
    assert!(matches!(SpinButtonState::build(&p), Err(SpinButtonError::MaxLessThanMin)));
    let p = SpinButtonProps::new().min_value(0).max_value(5).set_value(7);
    assert_eq!(p.validate(), Err(SpinButtonError::SetValNotInRange));
    let p = SpinButtonProps::new().min_value(0).max_value(5).set_value(-1);
    assert!(matches!(SpinButtonState::build(&p), Err(SpinButtonError::SetValNotInRange)));
    let p = SpinButtonProps::new().max_value(100);
    assert_eq!(p.validate(), Ok(()));
    assert_eq!(SpinButtonState::build(&p).unwrap().val(), 0);
}

#[test]
fn spin_set_clamps() {
    let p = SpinButtonProps::new().min_value(-10).max_value(10).set_value(3);
    let mut s = SpinButtonState::build(&p).unwrap();
    assert_eq!(s.val(), 3);
    assert_eq!(s.set(20).val, 10);
    assert_eq!(s.val(), 10);
    assert_eq!(s.set(-20).val, -10);
    assert_eq!(s.set(4), ValueChange { val: 4, changed: true });
    // setting the value it already has changes nothing
    assert_eq!(s.set(4), ValueChange { val: 4, changed: false });
    assert_eq!(s.set(500), ValueChange { val: 10, changed: true });
    assert_eq!(s.set(600), ValueChange { val: 10, changed: false });
}

#[test]
fn spin_increment_decrement() {
    let p = SpinButtonProps::new().min_value(0).max_value(100).set_value(50);
    let mut s = SpinButtonState::build(&p).unwrap();
    assert_eq!(s.increment(5).val, 55);
    assert_eq!(s.decrement(5).val, 50);
    assert_eq!(s.increment(0), ValueChange { val: 50, changed: false });
    assert_eq!(s.increment(70).val, 100);
    assert_eq!(s.decrement(500).val, 0);
}

#[test]
fn spin_overflow_goes_to_bounds() {
    let p = SpinButtonProps::new().min_value(-100).max_value(i32::MAX).set_value(i32::MAX - 1);
    let mut s = SpinButtonState::build(&p).unwrap();
    assert_eq!(s.increment(10).val, i32::MAX);
    let p = SpinButtonProps::new().min_value(i32::MIN).max_value(100).set_value(i32::MIN + 1);
    let mut s = SpinButtonState::build(&p).unwrap();
    assert_eq!(s.decrement(10).val, i32::MIN);
    // a negative increment below the smallest value goes to the minimum
    let p = SpinButtonProps::new().min_value(i32::MIN).max_value(100).set_value(i32::MIN + 1);
    let mut s = SpinButtonState::build(&p).unwrap();
    assert_eq!(s.increment(-10).val, i32::MIN);
    // a negative decrement above the largest value goes to the maximum
    let p = SpinButtonProps::new().min_value(-100).max_value(i32::MAX).set_value(i32::MAX - 1);
    let mut s = SpinButtonState::build(&p).unwrap();
    assert_eq!(s.decrement(-10).val, i32::MAX);
}

#[test]
fn spin_step_size() {
    let p = SpinButtonProps::new().small_step(1).medium_step(5).large_step(10);
    assert_eq!(p.step_size(Modifiers::none()), 1);
    assert_eq!(p.step_size(Modifiers::right_ctrl()), 5);
    assert_eq!(p.step_size(Modifiers::left_shift()), 10);
    assert_eq!(p.step_size(Modifiers::left_ctrl() | Modifiers::left_shift()), 5);
}

#[test]
fn spin_entry_places() {
    assert_eq!(SpinButtonProps::new().max_value(100).entry_places(), 3);
    assert_eq!(SpinButtonProps::new().entry_places(), 1);
    assert_eq!(SpinButtonProps::new().min_value(-5).max_value(9).entry_places(), 2);
    assert_eq!(SpinButtonProps::new().min_value(-1000).max_value(9).entry_places(), 5);
    assert_eq!(SpinButtonProps::new().max_value(i32::MAX).entry_places(), 10);
    assert_eq!(SpinButtonProps::new().min_value(i32::MIN).entry_places(), 11);
    assert_eq!(SpinButtonProps::new().min_value(i32::MIN).max_value(i32::MIN).entry_places(), 11);
}

#[test]
fn spin_parse() {
    assert_eq!(parse_i32(&chars("42")), Some(42));
    assert_eq!(parse_i32(&chars("-42")), Some(-42));
    assert_eq!(parse_i32(&chars("+7")), Some(7));
    assert_eq!(parse_i32(&chars("007")), Some(7));
    assert_eq!(parse_i32(&chars("")), None);
    assert_eq!(parse_i32(&chars("-")), None);
    assert_eq!(parse_i32(&chars("+")), None);
    assert_eq!(parse_i32(&chars("1a")), None);
    assert_eq!(parse_i32(&chars("2147483647")), Some(i32::MAX));
    assert_eq!(parse_i32(&chars("2147483648")), None);
    assert_eq!(parse_i32(&chars("-2147483648")), Some(i32::MIN));
    assert_eq!(parse_i32(&chars("-2147483649")), None);
    assert_eq!(parse_i32(&chars("99999999999999999999")), None);
    for s in ["0", "-0", "123", "-99", "+5", "x", "", "12 3", "١٢"] {
        assert_eq!(parse_i32(&chars(s)), s.parse::<i32>().ok(), "{s}");
    }
}

#[test]
fn spin_entry_keys() {
    let p = SpinButtonProps::new().min_value(0).max_value(100).set_value(10);
    let mut s = SpinButtonState::build(&p).unwrap();
    let mut entry = chars("1");
    assert_eq!(s.entry_key(&mut entry, EntryKey::Char('2', true), 10), None);
    assert_eq!(entry, chars("12"));
    assert_eq!(s.entry_key(&mut entry, EntryKey::Char('x', false), 10), None);
    assert_eq!(entry, chars("12"));
    assert_eq!(s.entry_key(&mut entry, EntryKey::Char('5', true), 10), None);
    assert_eq!(s.entry_key(&mut entry, EntryKey::Backspace, 10), None);
    assert_eq!(entry, chars("12"));
    assert_eq!(s.entry_key(&mut entry, EntryKey::NewLine, 10), Some(ValueChange { val: 12, changed: true }));
    assert_eq!(s.val(), 12);
    let mut big = chars("500");
    assert_eq!(s.entry_key(&mut big, EntryKey::NewLine, 10), Some(ValueChange { val: 100, changed: true }));
    let mut empty = Vec::new();
    assert_eq!(s.entry_key(&mut empty, EntryKey::Backspace, 10), None);
    assert_eq!(s.entry_key(&mut empty, EntryKey::NewLine, 10), Some(ValueChange { val: 10, changed: true }));
    assert_eq!(s.val(), 10);
}

#[test]
fn spin_entry_same_value_is_no_change() {
    let p = SpinButtonProps::new().min_value(0).max_value(100).set_value(7);
    let mut s = SpinButtonState::build(&p).unwrap();
    let mut entry = chars("7");
    assert_eq!(
        s.entry_key(&mut entry, EntryKey::NewLine, 7),
        Some(ValueChange { val: 7, changed: false })
    );
}
