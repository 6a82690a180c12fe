use basalt_widgets::modifiers::Modifiers;

#[test]
fn modifiers_each_key() {
    assert!(Modifiers::left_shift().shift());
    assert!(Modifiers::right_shift().shift());
    assert!(!Modifiers::left_shift().ctrl());
    assert!(Modifiers::left_ctrl().ctrl());
    assert!(Modifiers::right_ctrl().ctrl());
    assert!(!Modifiers::right_ctrl().alt());
    assert!(Modifiers::left_alt().alt());
    assert!(Modifiers::right_alt().alt());
    assert!(!Modifiers::right_alt().shift());
    assert!(!Modifiers::none().shift());
    assert!(!Modifiers::none().ctrl());
    assert!(!Modifiers::none().alt());
}

#[test]
fn modifiers_bits() {
    assert_eq!(Modifiers::left_alt().bits(), 0b0000_1000);
    assert_eq!(Modifiers::left_ctrl().bits(), 0b0010_0000);
    assert_eq!(Modifiers::left_shift().bits(), 0b1000_0000);
    assert_eq!(Modifiers::right_alt().bits(), 0b0000_0100);
    assert_eq!(Modifiers::right_ctrl().bits(), 0b0001_0000);
    assert_eq!(Modifiers::right_shift().bits(), 0b0100_0000);
    assert_eq!(Modifiers::from_bits(0x5a).bits(), 0x5a);
}

#[test]
fn modifiers_operators() {
    let a = Modifiers::from_bits(0b1100_0000);
    let b = Modifiers::from_bits(0b1010_0000);
    assert_eq!((a & b).bits(), 0b1000_0000);
    assert_eq!((a | b).bits(), 0b1110_0000);
    assert_eq!((a ^ b).bits(), 0b0110_0000);
    let mut c = a;
    c &= b;
    assert_eq!(c.bits(), 0b1000_0000);
    c |= Modifiers::left_alt();
    assert_eq!(c.bits(), 0b1000_1000);
    c ^= Modifiers::left_shift();
    assert_eq!(c.bits(), 0b0000_1000);
}

#[test]
fn modifiers_from_keys() {
    let m = Modifiers::from_keys(false, true, true, false, false, true);
    assert_eq!(m.bits(), 0b0110_0100);
    assert!(m.shift() && m.ctrl() && m.alt());
    let none = Modifiers::from_keys(false, false, false, false, false, false);
    assert_eq!(none.bits(), 0);
}

#[test]
fn modifiers_press_release() {
    let m = Modifiers::none().with_pressed(Modifiers::left_shift());
    assert!(m.shift());
    let m = m.with_pressed(Modifiers::right_ctrl());
    assert!(m.shift() && m.ctrl());
    let m = m.with_released(Modifiers::left_shift());
    assert!(!m.shift() && m.ctrl());
    assert_eq!(m.bits(), Modifiers::right_ctrl().bits());
    let both = Modifiers::from_bits(0xff).with_released(Modifiers::left_ctrl() | Modifiers::right_ctrl());
    assert!(!both.ctrl() && both.shift() && both.alt());
}

#[test]
fn modifiers_choose_step() {
    let steps = (1, 5, 10);
    assert_eq!(Modifiers::none().choose_step(steps.0, steps.1, steps.2), 1);
    assert_eq!(Modifiers::left_ctrl().choose_step(steps.0, steps.1, steps.2), 5);
    assert_eq!(Modifiers::right_shift().choose_step(steps.0, steps.1, steps.2), 10);
    let both = Modifiers::left_ctrl() | Modifiers::left_shift();
    assert_eq!(both.choose_step(steps.0, steps.1, steps.2), 5);
    assert_eq!(Modifiers::left_alt().choose_step(0.5f32, 2.0, 4.0), 0.5);
}
