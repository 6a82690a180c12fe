use basalt_widgets::placement::{
    PlacementShape, Position, WidgetPlcmtErrorKind, ANCHOR_ALL_EDGES, HORI_ONLY_WIDTH,
    VERT_ONLY_TOP,
};

fn shape(position: Position, t: bool, b: bool, l: bool, r: bool, w: bool, h: bool) -> PlacementShape {
    PlacementShape { position, top: t, bottom: b, left: l, right: r, width: w, height: h }
}

#[test]
fn placement_valid_shapes() {
    assert!(shape(Position::Relative, true, false, true, false, true, true).validate().is_ok());
    assert!(shape(Position::Relative, true, true, true, true, false, false).validate().is_ok());
    assert!(shape(Position::Anchor, true, false, false, true, true, true).validate().is_ok());
    assert!(shape(Position::Floating, false, false, false, false, true, true).validate().is_ok());
    assert_eq!(Position::default(), Position::Relative);
}

#[test]
fn placement_vertical_errors() {
    let e = shape(Position::Relative, false, false, true, true, false, false).validate().unwrap_err();
    assert_eq!(e.kind, WidgetPlcmtErrorKind::NotConstrained);
    assert_eq!(e.desc, "Two of 'top`, 'bottom` and 'height' must be defined.");
    let e = shape(Position::Relative, true, true, true, true, false, true).validate().unwrap_err();
    assert_eq!(e.kind, WidgetPlcmtErrorKind::TooConstrained);
    assert_eq!(e.desc, "Only two of 'top`, 'bottom` and 'height' must be defined.");
    let e = shape(Position::Anchor, true, false, true, true, false, false).validate().unwrap_err();
    assert_eq!(e.kind, WidgetPlcmtErrorKind::NotConstrained);
    assert_eq!(e.desc, VERT_ONLY_TOP);
    let e = shape(Position::Relative, false, true, true, true, false, false).validate().unwrap_err();
    assert!(e.desc.starts_with("'bottom' is defined"));
    let e = shape(Position::Relative, false, false, true, true, false, true).validate().unwrap_err();
    assert!(e.desc.starts_with("'height' is defined"));
}

#[test]
fn placement_horizontal_errors() {
    let e = shape(Position::Relative, true, true, false, false, false, false).validate().unwrap_err();
    assert_eq!(e.kind, WidgetPlcmtErrorKind::NotConstrained);
    assert_eq!(e.desc, "Two of 'left`, 'right` and 'width' must be defined.");
    let e = shape(Position::Relative, true, true, true, true, true, false).validate().unwrap_err();
    assert_eq!(e.kind, WidgetPlcmtErrorKind::TooConstrained);
    let e = shape(Position::Relative, true, true, true, false, false, false).validate().unwrap_err();
    assert!(e.desc.starts_with("'left' is defined"));
    let e = shape(Position::Relative, true, true, false, true, false, false).validate().unwrap_err();
    assert!(e.desc.starts_with("'right' is defined"));
    let e = shape(Position::Relative, true, true, false, false, true, false).validate().unwrap_err();
    assert_eq!(e.desc, HORI_ONLY_WIDTH);
}

#[test]
fn placement_vertical_checked_first() {
    let e = shape(Position::Relative, false, false, false, false, false, false).validate().unwrap_err();
    assert_eq!(e.desc, "Two of 'top`, 'bottom` and 'height' must be defined.");
}

#[test]
fn placement_anchor_all_edges() {
    let e = shape(Position::Anchor, true, true, true, true, false, false).validate().unwrap_err();
    assert_eq!(e.kind, WidgetPlcmtErrorKind::TooConstrained);
    assert_eq!(e.desc, ANCHOR_ALL_EDGES);
    assert!(shape(Position::Relative, true, true, true, true, false, false).validate().is_ok());
}

#[test]
fn placement_floating() {
    let e = shape(Position::Floating, true, true, true, true, false, true).validate().unwrap_err();
    assert_eq!(e.kind, WidgetPlcmtErrorKind::NotConstrained);
    assert_eq!(e.desc, "'width' must be defined.");
    let e = shape(Position::Floating, false, false, false, false, true, false).validate().unwrap_err();
    assert_eq!(e.desc, "'height' must be defined.");
    let e = shape(Position::Floating, false, false, false, false, false, false).validate().unwrap_err();
    assert_eq!(e.desc, "'width' must be defined.");
}
