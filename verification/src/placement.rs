//! Placement of a widget within its container and the rules that check it.

use vstd::prelude::*;

verus! {

/// How a widget is positioned.
#[derive(Debug, Clone, Copy, PartialEq, Eq, Structural, Default)]
pub enum Position {
    /// Positioned relative to its parent.
    #[default]
    Relative,
    /// Floats within its parent, beside its siblings.
    Floating,
    /// Anchored to its parent.
    Anchor,
}

/// Which of the values of a placement are defined.
///
/// A placement's values (offsets from each edge, width and height) are either undefined or a
/// length; the rules of [`PlacementShape::validate`] only read whether each one is defined.
#[derive(Debug, Clone, Copy, PartialEq, Eq, Structural)]
pub struct PlacementShape {
    pub position: Position,
    pub top: bool,
    pub bottom: bool,
    pub left: bool,
    pub right: bool,
    pub width: bool,
    pub height: bool,
}

/// The error returned when a placement is not valid.
#[derive(Debug, Clone, Copy)]
pub struct WidgetPlcmtError {
    pub kind: WidgetPlcmtErrorKind,
    pub desc: &'static str,
}

/// The kind of a [`WidgetPlcmtError`].
#[derive(Debug, Clone, Copy, PartialEq, Eq, Structural)]
pub enum WidgetPlcmtErrorKind {
    /// Too few values are defined to place the widget.
    NotConstrained,
    /// More values are defined than placing the widget allows.
    TooConstrained,
}

/// The rule that a placement breaks; each has its own kind and description.
#[derive(Debug, Clone, Copy, PartialEq, Eq, Structural)]
pub enum PlacementRule {
    VertNone,
    VertAll,
    VertOnlyTop,
    VertOnlyBottom,
    VertOnlyHeight,
    HoriNone,
    HoriAll,
    HoriOnlyLeft,
    HoriOnlyRight,
    HoriOnlyWidth,
    AnchorAllEdges,
    FloatingNoWidth,
    FloatingNoHeight,
}

/// The rule broken by the three values of one axis (near edge, far edge, size), if any.
pub open spec fn axis_rule(
    near: bool,
    far: bool,
    size: bool,
    none: PlacementRule,
    all: PlacementRule,
    only_near: PlacementRule,
    only_far: PlacementRule,
    only_size: PlacementRule,
) -> Option<PlacementRule> {
    if !near && !far && !size {
        Some(none)
    } else if near && far && size {
        Some(all)
    } else if near && !far && !size {
        Some(only_near)
    } else if !near && far && !size {
        Some(only_far)
    } else if !near && !far && size {
        Some(only_size)
    } else {
        None
    }
}

/// The first rule that `s` breaks, in the order in which they are checked.
pub open spec fn placement_rule(s: PlacementShape) -> Option<PlacementRule> {
    match s.position {
        Position::Floating => {
            if !s.width {
                Some(PlacementRule::FloatingNoWidth)
            } else if !s.height {
                Some(PlacementRule::FloatingNoHeight)
            } else {
                None
            }
        },
        _ => {
            let vert = axis_rule(
                s.top,
                s.bottom,
                s.height,
                PlacementRule::VertNone,
                PlacementRule::VertAll,
                PlacementRule::VertOnlyTop,
                PlacementRule::VertOnlyBottom,
                PlacementRule::VertOnlyHeight,
            );
            let hori = axis_rule(
                s.left,
                s.right,
                s.width,
                PlacementRule::HoriNone,
                PlacementRule::HoriAll,
                PlacementRule::HoriOnlyLeft,
                PlacementRule::HoriOnlyRight,
                PlacementRule::HoriOnlyWidth,
            );
            if vert is Some {
                vert
            } else if hori is Some {
                hori
            } else if s.position == Position::Anchor && s.top && s.bottom && s.left && s.right {
                Some(PlacementRule::AnchorAllEdges)
            } else {
                None
            }
        },
    }
}

/// The kind of error that breaking `rule` gives.
pub open spec fn rule_kind(rule: PlacementRule) -> WidgetPlcmtErrorKind {
    match rule {
        PlacementRule::VertAll | PlacementRule::HoriAll | PlacementRule::AnchorAllEdges => {
            WidgetPlcmtErrorKind::TooConstrained
        },
        _ => WidgetPlcmtErrorKind::NotConstrained,
    }
}

/// The description of the error that breaking `rule` gives.
pub open spec fn rule_desc(rule: PlacementRule) -> Seq<char> {
    match rule {
        PlacementRule::VertNone => "Two of 'top`, 'bottom` and 'height' must be defined."@,
        PlacementRule::VertAll => "Only two of 'top`, 'bottom` and 'height' must be defined."@,
        PlacementRule::VertOnlyTop => VERT_ONLY_TOP@,
        PlacementRule::VertOnlyBottom => VERT_ONLY_BOTTOM@,
        PlacementRule::VertOnlyHeight => VERT_ONLY_HEIGHT@,
        PlacementRule::HoriNone => "Two of 'left`, 'right` and 'width' must be defined."@,
        PlacementRule::HoriAll => "Only two of 'left`, 'right` and 'width' must be defined."@,
        PlacementRule::HoriOnlyLeft => HORI_ONLY_LEFT@,
        PlacementRule::HoriOnlyRight => HORI_ONLY_RIGHT@,
        PlacementRule::HoriOnlyWidth => HORI_ONLY_WIDTH@,
        PlacementRule::AnchorAllEdges => ANCHOR_ALL_EDGES@,
        PlacementRule::FloatingNoWidth => "'width' must be defined."@,
        PlacementRule::FloatingNoHeight => "'height' must be defined."@,
    }
}

pub const VERT_ONLY_TOP: &'static str =
    "'top' is defined, but either 'bottom' or 'height' must also be defined.";
pub const VERT_ONLY_BOTTOM: &'static str =
    "'bottom' is defined, but either 'top' or 'height' must also be defined.";
pub const VERT_ONLY_HEIGHT: &'static str =
    "'height' is defined, but either 'top' or 'bottom' must also be defined.";
pub const HORI_ONLY_LEFT: &'static str =
    "'left' is defined, but either 'right' or 'width' must also be defined.";
pub const HORI_ONLY_RIGHT: &'static str =
    "'right' is defined, but either 'left' or 'width' must also be defined.";
pub const HORI_ONLY_WIDTH: &'static str =
    "'width' is defined, but either 'left' or 'right' must also be defined.";
pub const ANCHOR_ALL_EDGES: &'static str =
    "'top', 'bottom', 'left' and 'right' are defined. If using both 'top' & 'bottom', 'left' & 'width' or 'right' & 'width' must be used instead of 'left' & 'right'. If using both 'left' & 'right', 'top' & 'height' or 'bottom' & height' must be used instead of 'top & 'bottom'.";

impl WidgetPlcmtError {
    fn new(kind: WidgetPlcmtErrorKind, desc: &'static str) -> (e: WidgetPlcmtError)
        ensures
            e.kind == kind,
            e.desc@ == desc@,
    {
        WidgetPlcmtError { kind, desc }
    }
}

/// The error for one axis, checking the near edge, the far edge and the size.
fn check_axis(
    near: bool,
    far: bool,
    size: bool,
    vertical: bool,
) -> (r: Result<(), WidgetPlcmtError>)
    ensures
        ({
            let rule = if vertical {
                axis_rule(
                    near,
                    far,
                    size,
                    PlacementRule::VertNone,
                    PlacementRule::VertAll,
                    PlacementRule::VertOnlyTop,
                    PlacementRule::VertOnlyBottom,
                    PlacementRule::VertOnlyHeight,
                )
            } else {
                axis_rule(
                    near,
                    far,
                    size,
                    PlacementRule::HoriNone,
                    PlacementRule::HoriAll,
                    PlacementRule::HoriOnlyLeft,
                    PlacementRule::HoriOnlyRight,
                    PlacementRule::HoriOnlyWidth,
                )
            };
            &&& (r is Ok <==> rule is None)
            &&& (r matches Err(e) ==> e.kind == rule_kind(rule.unwrap()) && e.desc@ == rule_desc(
                rule.unwrap(),
            ))
        }),
{
    let nc = WidgetPlcmtErrorKind::NotConstrained;
    let tc = WidgetPlcmtErrorKind::TooConstrained;
    if !near && !far && !size {
        if vertical {
            Err(WidgetPlcmtError::new(nc, "Two of 'top`, 'bottom` and 'height' must be defined."))
        } else {
            Err(WidgetPlcmtError::new(nc, "Two of 'left`, 'right` and 'width' must be defined."))
        }
    } else if near && far && size {
        if vertical {
            Err(
                WidgetPlcmtError::new(
                    tc,
                    "Only two of 'top`, 'bottom` and 'height' must be defined.",
                ),
            )
        } else {
            Err(
                WidgetPlcmtError::new(
                    tc,
                    "Only two of 'left`, 'right` and 'width' must be defined.",
                ),
            )
        }
    } else if near && !far && !size {
        Err(WidgetPlcmtError::new(nc, if vertical { VERT_ONLY_TOP } else { HORI_ONLY_LEFT }))
    } else if !near && far && !size {
        Err(WidgetPlcmtError::new(nc, if vertical { VERT_ONLY_BOTTOM } else { HORI_ONLY_RIGHT }))
    } else if !near && !far && size {
        Err(WidgetPlcmtError::new(nc, if vertical { VERT_ONLY_HEIGHT } else { HORI_ONLY_WIDTH }))
    } else {
        Ok(())
    }
}

impl PlacementShape {
    /// Checks that the defined values place the widget exactly.
    ///
    /// Returns the error of the first rule broken: for `Relative` and `Anchor`, two of `top`,
    /// `bottom` and `height` and two of `left`, `right` and `width` must be defined, and an
    /// `Anchor` may not define all four edges; for `Floating`, `width` and `height` must be
    /// defined.
    pub fn validate(&self) -> (r: Result<(), WidgetPlcmtError>)
        ensures
            r is Ok <==> placement_rule(*self) is None,
            r matches Err(e) ==> e.kind == rule_kind(placement_rule(*self).unwrap()) && e.desc@
                == rule_desc(placement_rule(*self).unwrap()),
    {
        match self.position {
            Position::Relative | Position::Anchor => {
                check_axis(self.top, self.bottom, self.height, true)?;
                check_axis(self.left, self.right, self.width, false)?;
                if self.position == Position::Anchor && self.top && self.bottom && self.left
                    && self.right {
                    return Err(
                        WidgetPlcmtError::new(WidgetPlcmtErrorKind::TooConstrained, ANCHOR_ALL_EDGES),
                    );
                }
            },
            Position::Floating => {
                if !self.width {
                    return Err(
                        WidgetPlcmtError::new(
                            WidgetPlcmtErrorKind::NotConstrained,
                            "'width' must be defined.",
                        ),
                    );
                }
                if !self.height {
                    return Err(
                        WidgetPlcmtError::new(
                            WidgetPlcmtErrorKind::NotConstrained,
                            "'height' must be defined.",
                        ),
                    );
                }
            },
        }
        Ok(())
    }
}

} // verus!

verus! {

/// How many of three values are defined.
pub open spec fn defined_count(a: bool, b: bool, c: bool) -> int {
    (if a { 1int } else { 0int }) + (if b { 1int } else { 0int }) + (if c { 1int } else { 0int })
}

/// A placement is valid exactly when it places the widget exactly: floating, with a width and
/// a height; else with two of top, bottom and height and two of left, right and width, and,
/// anchored, not with all four edges.
pub proof fn law_valid_placement(s: PlacementShape)
    ensures
        placement_rule(s) is None <==> (match s.position {
            Position::Floating => s.width && s.height,
            _ => {
                &&& defined_count(s.top, s.bottom, s.height) == 2
                &&& defined_count(s.left, s.right, s.width) == 2
                &&& !(s.position == Position::Anchor && s.top && s.bottom && s.left && s.right)
            },
        }),
{
}

/// Which kind of error an invalid placement gives: too constrained where the first axis
/// checked (top, bottom and height before left, right and width) that is not exactly placed has
/// all three values, or, anchored with both axes placed, where all four edges are given; not
/// constrained where that axis has fewer than two, and for a floating placement without a width
/// or a height.
pub proof fn law_error_kind(s: PlacementShape)
    requires
        placement_rule(s) is Some,
    ensures
        ({
            let vert = defined_count(s.top, s.bottom, s.height);
            let hori = defined_count(s.left, s.right, s.width);
            let kind = rule_kind(placement_rule(s).unwrap());
            &&& s.position == Position::Floating ==> kind == WidgetPlcmtErrorKind::NotConstrained
            &&& s.position != Position::Floating ==> (kind == WidgetPlcmtErrorKind::TooConstrained
                <==> (vert == 3 || (vert == 2 && hori == 3) || (vert == 2 && hori == 2
                && s.position == Position::Anchor && s.top && s.bottom && s.left && s.right)))
        }),
{
}

} // verus!
