//! How the cursor and the selection of a text area move in answer to keys and clicks.
//!
//! Positions come from the text layout, which lives outside this crate: each decision takes the
//! answers to the layout questions it asks (where a word or line edge is, which position is next)
//! as [`NavFacts`], and returns the edit to make as a [`CursorEdit`].

use vstd::prelude::*;
use crate::modifiers::Modifiers;

verus! {

/// A cursor position: the span, the byte range of the glyph, and whether the cursor sits after
/// it. Positions are ordered by span, then start byte, then end byte, then side.
#[derive(Clone, Copy, Debug, PartialEq, Eq, Structural)]
pub struct TextPos {
    pub span: usize,
    pub byte_s: usize,
    pub byte_e: usize,
    pub after: bool,
}

/// A selection between two positions, `start` not after `end`.
#[derive(Clone, Copy, Debug, PartialEq, Eq, Structural)]
pub struct TextSel {
    pub start: TextPos,
    pub end: TextPos,
}

/// A direction of cursor movement.
#[derive(Clone, Copy, Debug, PartialEq, Eq, Structural)]
pub enum Direction {
    Up,
    Down,
    Left,
    Right,
}

/// What the layout says about a position `p`, for one direction.
///
/// The edge is the start of the word (left), the end of the word (right), the start of the line
/// (up) or the end of the line (down). For word and line moves the step is the previous position
/// (left, up) or the next position (right, down); for a plain move it is the position one move
/// away (a line up or down for up and down).
#[derive(Clone, Copy, Debug, PartialEq, Eq, Structural)]
pub struct NavFacts {
    /// The edge from `p`.
    pub edge: Option<TextPos>,
    /// Whether `p` and its edge are the same place in the text.
    pub edge_equiv: bool,
    /// The step from `p`.
    pub step: Option<TextPos>,
    /// The edge from the step.
    pub step_edge: Option<TextPos>,
}

/// The change to the selection.
#[derive(Clone, Copy, Debug, PartialEq, Eq, Structural)]
pub enum SelChange {
    Keep,
    Clear,
    Select(TextSel),
}

/// The change to the cursor.
#[derive(Clone, Copy, Debug, PartialEq, Eq, Structural)]
pub enum CursorChange {
    Keep,
    /// The cursor is removed.
    Remove,
    To(TextPos),
}

/// Scrolling by a line in one direction.
#[derive(Clone, Copy, Debug, PartialEq, Eq, Structural)]
pub enum LineScroll {
    Up,
    Down,
}

/// An edit to the cursor and selection, and what follows it.
#[derive(Clone, Copy, Debug, PartialEq, Eq, Structural)]
pub struct CursorEdit {
    pub selection: SelChange,
    pub cursor: CursorChange,
    /// Scroll the view by a line.
    pub scroll: Option<LineScroll>,
    /// Scroll so the cursor is in view, once the layout is updated.
    pub check_in_view: bool,
    /// Restart the cursor's blinking.
    pub reset_blink: bool,
}

/// `a` comes before `b`.
pub open spec fn pos_lt(a: TextPos, b: TextPos) -> bool {
    if a.span != b.span {
        a.span < b.span
    } else if a.byte_s != b.byte_s {
        a.byte_s < b.byte_s
    } else if a.byte_e != b.byte_e {
        a.byte_e < b.byte_e
    } else {
        !a.after && b.after
    }
}

/// `a` comes before `b`.
pub fn text_pos_lt(a: TextPos, b: TextPos) -> (r: bool)
    ensures
        r == pos_lt(a, b),
{
    if a.span != b.span {
        a.span < b.span
    } else if a.byte_s != b.byte_s {
        a.byte_s < b.byte_s
    } else if a.byte_e != b.byte_e {
        a.byte_e < b.byte_e
    } else {
        !a.after && b.after
    }
}

/// The selection between two positions given in either order.
pub open spec fn spec_unordered(a: TextPos, b: TextPos) -> TextSel {
    if pos_lt(a, b) {
        TextSel { start: a, end: b }
    } else {
        TextSel { start: b, end: a }
    }
}

/// The selection between two positions given in either order.
pub fn unordered(a: TextPos, b: TextPos) -> (s: TextSel)
    ensures
        s == spec_unordered(a, b),
{
    if text_pos_lt(a, b) {
        TextSel { start: a, end: b }
    } else {
        TextSel { start: b, end: a }
    }
}

/// The earlier of two positions.
pub open spec fn pos_min(a: TextPos, b: TextPos) -> TextPos {
    if pos_lt(b, a) {
        b
    } else {
        a
    }
}

/// The later of two positions.
pub open spec fn pos_max(a: TextPos, b: TextPos) -> TextPos {
    if pos_lt(b, a) {
        a
    } else {
        b
    }
}

/// The edit that leaves everything as it is.
pub open spec fn no_edit() -> CursorEdit {
    CursorEdit {
        selection: SelChange::Keep,
        cursor: CursorChange::Keep,
        scroll: None,
        check_in_view: false,
        reset_blink: false,
    }
}

fn nothing() -> (e: CursorEdit)
    ensures
        e == no_edit(),
{
    CursorEdit {
        selection: SelChange::Keep,
        cursor: CursorChange::Keep,
        scroll: None,
        check_in_view: false,
        reset_blink: false,
    }
}

/// The position reached by moving from `p` to the next word or line edge: the edge where `p` is
/// not already at it; else the edge of the step from `p`; falling back to `p` where there is
/// no edge, to the edge where there is no step, and to the step where it has no edge.
pub open spec fn spec_next_word_line(p: TextPos, f: NavFacts) -> TextPos {
    match f.edge {
        None => p,
        Some(edge) => if !f.edge_equiv {
            edge
        } else {
            match f.step {
                None => edge,
                Some(next) => match f.step_edge {
                    None => next,
                    Some(e2) => e2,
                },
            }
        },
    }
}

/// Moves from `p` to the next word or line edge; see [`spec_next_word_line`].
pub fn next_word_line(p: TextPos, f: &NavFacts) -> (r: TextPos)
    ensures
        r == spec_next_word_line(p, *f),
{
    let edge = match f.edge {
        None => return p,
        Some(edge) => edge,
    };
    if !f.edge_equiv {
        return edge;
    }
    let next = match f.step {
        None => return edge,
        Some(next) => next,
    };
    match f.step_edge {
        None => next,
        Some(e2) => e2,
    }
}

/// The end a selection collapses to: its start for left and up, its end for right and down.
pub open spec fn spec_collapse(sel: TextSel, direction: Direction) -> TextPos {
    match direction {
        Direction::Left | Direction::Up => sel.start,
        Direction::Right | Direction::Down => sel.end,
    }
}

/// The end a selection collapses to: its start for left and up, its end for right and down.
pub fn collapse(sel: TextSel, direction: Direction) -> (p: TextPos)
    ensures
        p == spec_collapse(sel, direction),
{
    match direction {
        Direction::Left | Direction::Up => sel.start,
        Direction::Right | Direction::Down => sel.end,
    }
}

/// Where Home (`Direction::Up`) and End (`Direction::Down`) look for the line edge: the near
/// end of the selection, which it collapses to, where there is one; else the cursor.
pub open spec fn spec_line_edge_origin(
    cursor: Option<TextPos>,
    selection: Option<TextSel>,
    direction: Direction,
) -> Option<TextPos> {
    match selection {
        Some(sel) => Some(spec_collapse(sel, direction)),
        None => cursor,
    }
}

/// Where Home and End look for the line edge; see [`spec_line_edge_origin`].
pub fn line_edge_origin(cursor: Option<TextPos>, selection: Option<TextSel>, direction: Direction) -> (r:
    Option<TextPos>)
    ensures
        r == spec_line_edge_origin(cursor, selection, direction),
{
    match selection {
        Some(sel) => Some(collapse(sel, direction)),
        None => cursor,
    }
}

/// The edit Home (`Direction::Up`) or End (`Direction::Down`) makes, given `edge`, the start
/// or end of the line at the origin that [`spec_line_edge_origin`] names: a selection is
/// cleared and the cursor goes to its near end, and then the cursor goes to the edge where
/// there is one. The cursor is then brought into view and its blinking restarts.
pub open spec fn spec_line_edge_move(
    selection: Option<TextSel>,
    direction: Direction,
    edge: Option<TextPos>,
) -> CursorEdit {
    CursorEdit {
        selection: if selection is Some {
            SelChange::Clear
        } else {
            SelChange::Keep
        },
        cursor: match edge {
            Some(e) => CursorChange::To(e),
            None => match selection {
                Some(sel) => CursorChange::To(spec_collapse(sel, direction)),
                None => CursorChange::Keep,
            },
        },
        scroll: None,
        check_in_view: true,
        reset_blink: true,
    }
}

/// The edit Home or End makes; see [`spec_line_edge_move`].
pub fn line_edge_move(selection: Option<TextSel>, direction: Direction, edge: Option<TextPos>) -> (e:
    CursorEdit)
    ensures
        e == spec_line_edge_move(selection, direction, edge),
{
    let selection_change = match selection {
        Some(_) => SelChange::Clear,
        None => SelChange::Keep,
    };
    let cursor = match edge {
        Some(p) => CursorChange::To(p),
        None => match selection {
            Some(sel) => CursorChange::To(collapse(sel, direction)),
            None => CursorChange::Keep,
        },
    };
    CursorEdit {
        selection: selection_change,
        cursor,
        scroll: None,
        check_in_view: true,
        reset_blink: true,
    }
}

/// The state a key-driven move starts from and the layout facts it may need.
#[derive(Clone, Copy, Debug, PartialEq, Eq, Structural)]
pub struct MoveInput {
    /// The cursor position, where the cursor is at a position.
    pub cursor: Option<TextPos>,
    pub selection: Option<TextSel>,
    /// Facts about the cursor position, with a word step.
    pub at_cursor: NavFacts,
    /// Facts about the selection's start; their step is a word step while ctrl is held, else a
    /// plain move.
    pub at_start: NavFacts,
    /// Facts about the selection's end, with the same step as `at_start`.
    pub at_end: NavFacts,
    /// The step from the cursor, whatever it is (also where it is at no position).
    pub cursor_step: Option<TextPos>,
}

/// The edit made by an arrow key in `direction` while `mods` are held.
///
/// With shift, the selection grows or shrinks: from no selection, the cursor selects to the
/// word or line edge (nothing happens with alt too); else the end that moves is the one the
/// cursor is at (the other with alt), by a step, or to the next word or line edge with ctrl,
/// and the cursor follows it (stays at the fixed end with alt). With ctrl alone, left and right
/// jump to the next word edge from the selection's near end or the cursor, clearing the
/// selection, and up and down scroll a line. Otherwise a selection collapses to its near end,
/// or the cursor steps.
pub open spec fn spec_move_cursor(mods: Modifiers, direction: Direction, m: MoveInput) -> CursorEdit {
    if mods.spec_shift() {
        match m.cursor {
            None => no_edit(),
            Some(cursor) => match m.selection {
                None => if !mods.spec_alt() {
                    match m.at_cursor.edge {
                        None => no_edit(),
                        Some(sel_s) => CursorEdit {
                            selection: SelChange::Select(spec_unordered(sel_s, cursor)),
                            cursor: CursorChange::To(sel_s),
                            scroll: None,
                            check_in_view: false,
                            reset_blink: false,
                        },
                    }
                } else {
                    no_edit()
                },
                Some(sel) => {
                    let start_fixed = mods.spec_alt() == (sel.start == cursor);
                    let sel_s = if start_fixed {
                        sel.start
                    } else {
                        sel.end
                    };
                    let old_e = if start_fixed {
                        sel.end
                    } else {
                        sel.start
                    };
                    let facts = if start_fixed {
                        m.at_end
                    } else {
                        m.at_start
                    };
                    let new_e = if mods.spec_ctrl() {
                        Some(spec_next_word_line(old_e, facts))
                    } else {
                        facts.step
                    };
                    match new_e {
                        None => no_edit(),
                        Some(sel_e) => CursorEdit {
                            selection: SelChange::Select(spec_unordered(sel_s, sel_e)),
                            cursor: CursorChange::To(
                                if mods.spec_alt() {
                                    sel_s
                                } else {
                                    sel_e
                                },
                            ),
                            scroll: None,
                            check_in_view: false,
                            reset_blink: true,
                        },
                    }
                },
            },
        }
    } else if mods.spec_ctrl() {
        if direction == Direction::Left || direction == Direction::Right {
            let from: Option<(TextPos, NavFacts)> = match m.selection {
                Some(sel) => if direction == Direction::Left {
                    Some((sel.start, m.at_start))
                } else {
                    Some((sel.end, m.at_end))
                },
                None => match m.cursor {
                    None => None,
                    Some(c) => Some((c, m.at_cursor)),
                },
            };
            match from {
                None => no_edit(),
                Some((p, f)) => CursorEdit {
                    selection: SelChange::Clear,
                    cursor: CursorChange::To(spec_next_word_line(p, f)),
                    scroll: None,
                    check_in_view: false,
                    reset_blink: true,
                },
            }
        } else {
            CursorEdit {
                selection: SelChange::Keep,
                cursor: CursorChange::Keep,
                scroll: Some(
                    if direction == Direction::Up {
                        LineScroll::Up
                    } else {
                        LineScroll::Down
                    },
                ),
                check_in_view: false,
                reset_blink: false,
            }
        }
    } else {
        match m.selection {
            Some(sel) => CursorEdit {
                selection: SelChange::Clear,
                cursor: CursorChange::To(spec_collapse(sel, direction)),
                scroll: None,
                check_in_view: true,
                reset_blink: true,
            },
            None => CursorEdit {
                selection: SelChange::Keep,
                cursor: match m.cursor_step {
                    Some(c) => CursorChange::To(c),
                    None => CursorChange::Keep,
                },
                scroll: None,
                check_in_view: true,
                reset_blink: true,
            },
        }
    }
}

/// The edit made by an arrow key in `direction` while `mods` are held; see
/// [`spec_move_cursor`].
pub fn move_cursor_direction(mods: Modifiers, direction: Direction, m: &MoveInput) -> (e:
    CursorEdit)
    ensures
        e == spec_move_cursor(mods, direction, *m),
{
    if mods.shift() {
        let cursor = match m.cursor {
            None => return nothing(),
            Some(c) => c,
        };
        let sel = match m.selection {
            Some(sel) => sel,
            None => {
                if !mods.alt() {
                    let sel_s = match m.at_cursor.edge {
                        None => return nothing(),
                        Some(p) => p,
                    };
                    return CursorEdit {
                        selection: SelChange::Select(unordered(sel_s, cursor)),
                        cursor: CursorChange::To(sel_s),
                        scroll: None,
                        check_in_view: false,
                        reset_blink: false,
                    };
                }
                return nothing();
            },
        };
        let start_fixed = mods.alt() == (sel.start == cursor);
        let (sel_s, old_e, facts) = if start_fixed {
            (sel.start, sel.end, m.at_end)
        } else {
            (sel.end, sel.start, m.at_start)
        };
        let sel_e = if mods.ctrl() {
            next_word_line(old_e, &facts)
        } else {
            match facts.step {
                None => return nothing(),
                Some(p) => p,
            }
        };
        return CursorEdit {
            selection: SelChange::Select(unordered(sel_s, sel_e)),
            cursor: CursorChange::To(
                if mods.alt() {
                    sel_s
                } else {
                    sel_e
                },
            ),
            scroll: None,
            check_in_view: false,
            reset_blink: true,
        };
    } else if mods.ctrl() {
        if direction == Direction::Left || direction == Direction::Right {
            let (p, f) = match m.selection {
                Some(sel) => {
                    if direction == Direction::Left {
                        (sel.start, m.at_start)
                    } else {
                        (sel.end, m.at_end)
                    }
                },
                None => match m.cursor {
                    None => return nothing(),
                    Some(c) => (c, m.at_cursor),
                },
            };
            return CursorEdit {
                selection: SelChange::Clear,
                cursor: CursorChange::To(next_word_line(p, &f)),
                scroll: None,
                check_in_view: false,
                reset_blink: true,
            };
        } else {
            return CursorEdit {
                selection: SelChange::Keep,
                cursor: CursorChange::Keep,
                scroll: Some(
                    if direction == Direction::Up {
                        LineScroll::Up
                    } else {
                        LineScroll::Down
                    },
                ),
                check_in_view: false,
                reset_blink: false,
            };
        }
    }
    match m.selection {
        Some(sel) => CursorEdit {
            selection: SelChange::Clear,
            cursor: CursorChange::To(collapse(sel, direction)),
            scroll: None,
            check_in_view: true,
            reset_blink: true,
        },
        None => CursorEdit {
            selection: SelChange::Keep,
            cursor: match m.cursor_step {
                Some(c) => CursorChange::To(c),
                None => CursorChange::Keep,
            },
            scroll: None,
            check_in_view: true,
            reset_blink: true,
        },
    }
}

} // verus!

verus! {

/// The number of consecutive presses after a new press: one more than before (wrapping after
/// three, so a fourth press starts again at one) where the last press was recent enough, else
/// one. `last_recent` is `None` where there was no earlier press.
pub open spec fn spec_press_count(count: u8, last_recent: Option<bool>) -> u8 {
    match last_recent {
        Some(true) => if count + 1 > 3 {
            1
        } else {
            (count + 1) as u8
        },
        _ => 1,
    }
}

/// The number of consecutive presses after a new press; see [`spec_press_count`].
pub fn next_press_count(count: u8, last_recent: Option<bool>) -> (r: u8)
    requires
        count <= 3,
    ensures
        r == spec_press_count(count, last_recent),
        1 <= r <= 3,
{
    match last_recent {
        Some(true) => {
            let c = count + 1;
            if c > 3 {
                1
            } else {
                c
            }
        },
        _ => 1,
    }
}

/// The state a click starts from and what the layout says of it.
#[derive(Clone, Copy, Debug, PartialEq, Eq, Structural)]
pub struct ClickInput {
    pub cursor: Option<TextPos>,
    pub selection: Option<TextSel>,
    /// The position clicked, where the click hit one.
    pub clicked: Option<TextPos>,
    /// The word (two presses) or line (three presses) around the clicked position.
    pub word_or_line: Option<TextSel>,
}

/// The edit made by the `count`-th consecutive press.
///
/// One press moves the cursor to the clicked position; with shift, the selection runs from the
/// end of the old selection the cursor is not at (or from the cursor) to it, else the selection
/// is cleared. Two or three presses select the word or line: with shift and an old selection,
/// the two are joined and the cursor goes to the end that moved; else the cursor goes to its
/// end. Nothing happens where the click hit no position.
pub open spec fn spec_click(count: u8, shift: bool, ci: ClickInput) -> CursorEdit {
    match ci.clicked {
        None => no_edit(),
        Some(clicked) => {
            let (selection, cursor) = if count == 1 {
                if shift {
                    let sel = match ci.selection {
                        Some(ex) => {
                            let sel_s = match ci.cursor {
                                None => ex.start,
                                Some(c) => if c == ex.start {
                                    ex.end
                                } else {
                                    ex.start
                                },
                            };
                            SelChange::Select(spec_unordered(sel_s, clicked))
                        },
                        None => match ci.cursor {
                            Some(s) => SelChange::Select(spec_unordered(s, clicked)),
                            None => SelChange::Keep,
                        },
                    };
                    (sel, clicked)
                } else {
                    (SelChange::Clear, clicked)
                }
            } else {
                match ci.word_or_line {
                    Some(sel) => if shift {
                        match ci.selection {
                            Some(ex) => (
                                SelChange::Select(
                                    TextSel {
                                        start: pos_min(ex.start, sel.start),
                                        end: pos_max(ex.end, sel.end),
                                    },
                                ),
                                if pos_lt(ex.start, sel.start) {
                                    sel.end
                                } else {
                                    sel.start
                                },
                            ),
                            None => (SelChange::Select(sel), sel.end),
                        }
                    } else {
                        (SelChange::Select(sel), sel.end)
                    },
                    None => (SelChange::Clear, clicked),
                }
            };
            CursorEdit {
                selection,
                cursor: CursorChange::To(cursor),
                scroll: None,
                check_in_view: true,
                reset_blink: true,
            }
        },
    }
}

/// The earlier of two positions.
pub fn text_pos_min(a: TextPos, b: TextPos) -> (r: TextPos)
    ensures
        r == pos_min(a, b),
{
    if text_pos_lt(b, a) {
        b
    } else {
        a
    }
}

/// The later of two positions.
pub fn text_pos_max(a: TextPos, b: TextPos) -> (r: TextPos)
    ensures
        r == pos_max(a, b),
{
    if text_pos_lt(b, a) {
        a
    } else {
        b
    }
}

/// The edit made by the `count`-th consecutive press; see [`spec_click`].
pub fn click(count: u8, shift: bool, ci: &ClickInput) -> (e: CursorEdit)
    requires
        1 <= count <= 3,
    ensures
        e == spec_click(count, shift, *ci),
{
    let clicked = match ci.clicked {
        None => return nothing(),
        Some(p) => p,
    };
    let (selection, cursor) = if count == 1 {
        if shift {
            let sel = match ci.selection {
                Some(ex) => {
                    let sel_s = match ci.cursor {
                        None => ex.start,
                        Some(c) => {
                            if c == ex.start {
                                ex.end
                            } else {
                                ex.start
                            }
                        },
                    };
                    SelChange::Select(unordered(sel_s, clicked))
                },
                None => match ci.cursor {
                    Some(s) => SelChange::Select(unordered(s, clicked)),
                    None => SelChange::Keep,
                },
            };
            (sel, clicked)
        } else {
            (SelChange::Clear, clicked)
        }
    } else {
        match ci.word_or_line {
            Some(sel) => {
                if shift {
                    match ci.selection {
                        Some(ex) => (
                            SelChange::Select(
                                TextSel {
                                    start: text_pos_min(ex.start, sel.start),
                                    end: text_pos_max(ex.end, sel.end),
                                },
                            ),
                            if text_pos_lt(ex.start, sel.start) {
                                sel.end
                            } else {
                                sel.start
                            },
                        ),
                        None => (SelChange::Select(sel), sel.end),
                    }
                } else {
                    (SelChange::Select(sel), sel.end)
                }
            },
            None => (SelChange::Clear, clicked),
        }
    };
    CursorEdit {
        selection,
        cursor: CursorChange::To(cursor),
        scroll: None,
        check_in_view: true,
        reset_blink: true,
    }
}

/// The edit made while the pointer drags with the button held: the selection runs from the
/// anchor (the end of the selection the cursor is not at, or the cursor) to the hovered
/// position, and the cursor follows; where the anchor is reached the selection is cleared.
/// Where the pointer is over no position, the cursor is removed and the selection cleared.
/// Nothing happens where the cursor is at no position.
pub open spec fn spec_drag(cursor: Option<TextPos>, selection: Option<TextSel>, hovered: Option<
    TextPos,
>) -> CursorEdit {
    match cursor {
        None => no_edit(),
        Some(c) => {
            let sel_s = match selection {
                Some(s) => if s.start == c {
                    s.end
                } else {
                    s.start
                },
                None => c,
            };
            match hovered {
                None => CursorEdit {
                    selection: SelChange::Clear,
                    cursor: CursorChange::Remove,
                    scroll: None,
                    check_in_view: false,
                    reset_blink: false,
                },
                Some(e) => CursorEdit {
                    selection: if sel_s == e {
                        SelChange::Clear
                    } else {
                        SelChange::Select(spec_unordered(sel_s, e))
                    },
                    cursor: CursorChange::To(e),
                    scroll: None,
                    check_in_view: false,
                    reset_blink: false,
                },
            }
        },
    }
}

/// The edit made while the pointer drags; see [`spec_drag`].
pub fn drag(cursor: Option<TextPos>, selection: Option<TextSel>, hovered: Option<TextPos>) -> (e:
    CursorEdit)
    ensures
        e == spec_drag(cursor, selection, hovered),
{
    let c = match cursor {
        None => return nothing(),
        Some(c) => c,
    };
    let sel_s = match selection {
        Some(s) => {
            if s.start == c {
                s.end
            } else {
                s.start
            }
        },
        None => c,
    };
    match hovered {
        None => CursorEdit {
            selection: SelChange::Clear,
            cursor: CursorChange::Remove,
            scroll: None,
            check_in_view: false,
            reset_blink: false,
        },
        Some(e) => CursorEdit {
            selection: if sel_s == e {
                SelChange::Clear
            } else {
                SelChange::Select(unordered(sel_s, e))
            },
            cursor: CursorChange::To(e),
            scroll: None,
            check_in_view: false,
            reset_blink: false,
        },
    }
}

/// What a typed character does after any selection is deleted.
#[derive(Clone, Copy, Debug, PartialEq, Eq, Structural)]
pub enum CharStep {
    Nothing,
    /// Delete back to the previous word edge (`up == false`) or the line start (`up == true`).
    DeleteWord { up: bool },
    /// Delete the character before the cursor.
    DeleteChar,
    /// Insert the character at the cursor.
    Insert(char),
}

/// What a typed character does.
#[derive(Clone, Copy, Debug, PartialEq, Eq, Structural)]
pub struct CharAction {
    /// The character is not for the text (ctrl or alt is held).
    pub ignore: bool,
    /// The selection is deleted first.
    pub delete_selection: bool,
    pub step: CharStep,
}

/// What a typed character does: with alt, or with ctrl and not a backspace, nothing; else any
/// selection is deleted, and then a backspace that deleted no selection deletes a character, or
/// with ctrl a word (a line with shift too), and another character is inserted, a carriage
/// return as a line feed.
pub open spec fn spec_char_action(mods: Modifiers, c: char, is_backspace: bool, has_selection: bool) -> CharAction {
    if (!is_backspace && mods.spec_ctrl()) || mods.spec_alt() {
        CharAction { ignore: true, delete_selection: false, step: CharStep::Nothing }
    } else {
        CharAction {
            ignore: false,
            delete_selection: has_selection,
            step: if is_backspace {
                if has_selection {
                    CharStep::Nothing
                } else if mods.spec_ctrl() {
                    CharStep::DeleteWord { up: mods.spec_shift() }
                } else {
                    CharStep::DeleteChar
                }
            } else {
                CharStep::Insert(
                    if c == '\r' {
                        '\n'
                    } else {
                        c
                    },
                )
            },
        }
    }
}

/// What a typed character does; see [`spec_char_action`].
pub fn char_action(mods: Modifiers, c: char, is_backspace: bool, has_selection: bool) -> (a:
    CharAction)
    ensures
        a == spec_char_action(mods, c, is_backspace, has_selection),
{
    if (!is_backspace && mods.ctrl()) || mods.alt() {
        return CharAction { ignore: true, delete_selection: false, step: CharStep::Nothing };
    }
    let step = if is_backspace {
        if has_selection {
            CharStep::Nothing
        } else if mods.ctrl() {
            CharStep::DeleteWord { up: mods.shift() }
        } else {
            CharStep::DeleteChar
        }
    } else {
        CharStep::Insert(
            if c == '\r' {
                '\n'
            } else {
                c
            },
        )
    };
    CharAction { ignore: false, delete_selection: has_selection, step }
}

/// The range a word delete removes: from the word or line edge before the cursor to the cursor.
/// `None` where the cursor is at no position or already at the edge.
pub fn word_delete_range(cursor: Option<TextPos>, facts: &NavFacts) -> (r: Option<TextSel>)
    ensures
        r == (match cursor {
            None => None,
            Some(c) => {
                let start = spec_next_word_line(c, *facts);
                if start == c {
                    None
                } else {
                    Some(TextSel { start, end: c })
                }
            },
        }),
{
    let end = match cursor {
        None => return None,
        Some(c) => c,
    };
    let start = next_word_line(end, facts);
    if start == end {
        None
    } else {
        Some(TextSel { start, end })
    }
}

} // verus!

verus! {

/// Positions are strictly and totally ordered.
pub proof fn law_pos_order(a: TextPos, b: TextPos, c: TextPos)
    ensures
        !pos_lt(a, a),
        pos_lt(a, b) && pos_lt(b, c) ==> pos_lt(a, c),
        a != b ==> (pos_lt(a, b) || pos_lt(b, a)),
        !(pos_lt(a, b) && pos_lt(b, a)),
{
}

/// A selection made from two positions in either order runs from the earlier to the later, and
/// does not depend on their order.
pub proof fn law_unordered(a: TextPos, b: TextPos)
    ensures
        !pos_lt(spec_unordered(a, b).end, spec_unordered(a, b).start),
        (spec_unordered(a, b).start == a && spec_unordered(a, b).end == b) || (spec_unordered(
            a,
            b,
        ).start == b && spec_unordered(a, b).end == a),
        spec_unordered(a, b) == spec_unordered(b, a),
{
    law_pos_order(a, b, a);
}

/// An arrow key alone on a selection clears it and moves the cursor to its near end; with
/// shift, where a selection changes, its fixed end stays one of its ends and it runs forward.
pub proof fn law_move_selection(mods: Modifiers, direction: Direction, m: MoveInput)
    ensures
        !mods.spec_shift() && !mods.spec_ctrl() && m.selection is Some ==> {
            let e = spec_move_cursor(mods, direction, m);
            &&& e.selection == SelChange::Clear
            &&& e.cursor == CursorChange::To(spec_collapse(m.selection.unwrap(), direction))
        },
        mods.spec_shift() && m.cursor is Some && m.selection is Some ==> ({
            let sel = m.selection.unwrap();
            let anchor = if mods.spec_alt() == (sel.start == m.cursor.unwrap()) {
                sel.start
            } else {
                sel.end
            };
            spec_move_cursor(mods, direction, m).selection matches SelChange::Select(ns) ==> {
                &&& ns.start == anchor || ns.end == anchor
                &&& !pos_lt(ns.end, ns.start)
            }
        }),
{
    if mods.spec_shift() && m.cursor is Some && m.selection is Some {
        let sel = m.selection.unwrap();
        let cursor = m.cursor.unwrap();
        let start_fixed = mods.spec_alt() == (sel.start == cursor);
        let sel_s = if start_fixed {
            sel.start
        } else {
            sel.end
        };
        let facts = if start_fixed {
            m.at_end
        } else {
            m.at_start
        };
        let old_e = if start_fixed {
            sel.end
        } else {
            sel.start
        };
        let new_e = if mods.spec_ctrl() {
            Some(spec_next_word_line(old_e, facts))
        } else {
            facts.step
        };
        if let Some(sel_e) = new_e {
            law_unordered(sel_s, sel_e);
        }
    }
}

/// Dragging back onto the anchor leaves no selection; dragging elsewhere selects from the
/// anchor to the hovered position, in order, with the cursor at the hovered position. Dragging
/// over no position removes the cursor and the selection; with no cursor nothing changes.
pub proof fn law_drag(c: TextPos, selection: Option<TextSel>, e: TextPos)
    ensures
        ({
            let anchor = match selection {
                Some(s) => if s.start == c {
                    s.end
                } else {
                    s.start
                },
                None => c,
            };
            let ed = spec_drag(Some(c), selection, Some(e));
            &&& ed.cursor == CursorChange::To(e)
            &&& anchor == e ==> ed.selection == SelChange::Clear
            &&& anchor != e ==> ed.selection == SelChange::Select(spec_unordered(anchor, e))
        }),
        spec_drag(Some(c), selection, None) == (CursorEdit {
            selection: SelChange::Clear,
            cursor: CursorChange::Remove,
            scroll: None,
            check_in_view: false,
            reset_blink: false,
        }),
        spec_drag(None, selection, Some(e)) == no_edit(),
{
}

/// Presses in quick succession count one, two, three and then start again at one; a press
/// that is not quick, or the first press, counts one.
pub proof fn law_press_count()
    ensures
        spec_press_count(1, Some(true)) == 2,
        spec_press_count(2, Some(true)) == 3,
        spec_press_count(3, Some(true)) == 1,
        spec_press_count(0, Some(true)) == 1,
        forall|c: u8| c <= 3 ==> #[trigger] spec_press_count(c, Some(false)) == 1 && spec_press_count(
            c,
            None,
        ) == 1,
{
}

/// A character typed with alt, or with ctrl unless it is a backspace, changes nothing; a
/// backspace over a selection only deletes the selection.
pub proof fn law_char_action(mods: Modifiers, c: char, is_backspace: bool, has_selection: bool)
    ensures
        mods.spec_alt() || (mods.spec_ctrl() && !is_backspace) ==> ({
            let a = spec_char_action(mods, c, is_backspace, has_selection);
            &&& a.ignore
            &&& !a.delete_selection
            &&& a.step == CharStep::Nothing
        }),
        !mods.spec_alt() && is_backspace && has_selection ==> ({
            let a = spec_char_action(mods, c, is_backspace, has_selection);
            &&& a.delete_selection
            &&& a.step == CharStep::Nothing
        }),
{
}

/// A selection collapses to its start for left and up and to its end for right and down.
pub proof fn law_collapse(sel: TextSel)
    ensures
        spec_collapse(sel, Direction::Left) == sel.start,
        spec_collapse(sel, Direction::Up) == sel.start,
        spec_collapse(sel, Direction::Right) == sel.end,
        spec_collapse(sel, Direction::Down) == sel.end,
{
}

/// An arrow key with neither shift nor ctrl: on a selection it clears it and puts the cursor at
/// the selection's start for left and up and at its end for right and down; with no selection
/// the cursor takes the step, where there is one. Either way the view follows the cursor and
/// its blinking restarts, and nothing scrolls by a line.
pub proof fn law_move_plain(mods: Modifiers, direction: Direction, m: MoveInput)
    requires
        !mods.spec_shift(),
        !mods.spec_ctrl(),
    ensures
        ({
            let e = spec_move_cursor(mods, direction, m);
            &&& e.scroll is None
            &&& e.check_in_view
            &&& e.reset_blink
            &&& (m.selection matches Some(sel) ==> {
                &&& e.selection == SelChange::Clear
                &&& e.cursor == CursorChange::To(
                    if direction == Direction::Right || direction == Direction::Down {
                        sel.end
                    } else {
                        sel.start
                    },
                )
            })
            &&& (m.selection is None ==> {
                &&& e.selection == SelChange::Keep
                &&& e.cursor == (match m.cursor_step {
                    Some(c) => CursorChange::To(c),
                    None => CursorChange::Keep,
                })
            })
        }),
{
}

/// An arrow key with ctrl and no shift: up and down scroll by a line in their direction and
/// change neither cursor nor selection; left and right clear the selection and move to the next
/// word edge from the selection's start (left) or end (right), or from the cursor where there
/// is no selection.
pub proof fn law_move_ctrl(mods: Modifiers, direction: Direction, m: MoveInput)
    requires
        !mods.spec_shift(),
        mods.spec_ctrl(),
    ensures
        ({
            let e = spec_move_cursor(mods, direction, m);
            &&& direction == Direction::Up ==> e.scroll == Some(LineScroll::Up)
                && e.selection == SelChange::Keep && e.cursor == CursorChange::Keep
            &&& direction == Direction::Down ==> e.scroll == Some(LineScroll::Down)
                && e.selection == SelChange::Keep && e.cursor == CursorChange::Keep
            &&& direction == Direction::Left && m.selection is Some ==> e.selection
                == SelChange::Clear && e.cursor == CursorChange::To(
                spec_next_word_line(m.selection.unwrap().start, m.at_start),
            )
            &&& direction == Direction::Right && m.selection is Some ==> e.selection
                == SelChange::Clear && e.cursor == CursorChange::To(
                spec_next_word_line(m.selection.unwrap().end, m.at_end),
            )
            &&& (direction == Direction::Left || direction == Direction::Right) && m.selection is None
                && m.cursor is Some ==> e.selection == SelChange::Clear && e.cursor
                == CursorChange::To(spec_next_word_line(m.cursor.unwrap(), m.at_cursor))
            &&& (direction == Direction::Left || direction == Direction::Right) && m.selection is None
                && m.cursor is None ==> e == no_edit()
        }),
{
}

/// The next word or line edge from `p`: the edge where `p` is not already at it, else the edge
/// of the step from `p`; `p` itself where there is no edge, the edge where there is no step, and
/// the step where it has no edge.
pub proof fn law_next_word_line(p: TextPos, f: NavFacts)
    ensures
        f.edge is None ==> spec_next_word_line(p, f) == p,
        f.edge is Some && !f.edge_equiv ==> spec_next_word_line(p, f) == f.edge.unwrap(),
        f.edge is Some && f.edge_equiv && f.step is None ==> spec_next_word_line(p, f)
            == f.edge.unwrap(),
        f.edge is Some && f.edge_equiv && f.step is Some && f.step_edge is None
            ==> spec_next_word_line(p, f) == f.step.unwrap(),
        f.edge is Some && f.edge_equiv && f.step is Some && f.step_edge is Some
            ==> spec_next_word_line(p, f) == f.step_edge.unwrap(),
{
}

/// An arrow key with shift: with no selection, the cursor selects back to the word or line edge
/// and moves to it (nothing happens with alt too); with a selection, the end the cursor is at
/// moves (the other one with alt), by a step or with ctrl to the next word or line edge, the
/// other end stays fixed, and the cursor goes to the end that moved (stays at the fixed one
/// with alt).
pub proof fn law_move_shift(mods: Modifiers, direction: Direction, m: MoveInput)
    requires
        mods.spec_shift(),
    ensures
        ({
            let e = spec_move_cursor(mods, direction, m);
            &&& m.cursor is None ==> e == no_edit()
            &&& (m.cursor is Some && m.selection is None ==> {
                let c = m.cursor.unwrap();
                &&& mods.spec_alt() ==> e == no_edit()
                &&& !mods.spec_alt() && m.at_cursor.edge is None ==> e == no_edit()
                &&& !mods.spec_alt() && m.at_cursor.edge is Some ==> e.selection
                    == SelChange::Select(spec_unordered(m.at_cursor.edge.unwrap(), c)) && e.cursor
                    == CursorChange::To(m.at_cursor.edge.unwrap())
            })
            &&& (m.cursor is Some && m.selection is Some ==> {
                let c = m.cursor.unwrap();
                let sel = m.selection.unwrap();
                let moves_end = mods.spec_alt() == (sel.start == c);
                let fixed = if moves_end {
                    sel.start
                } else {
                    sel.end
                };
                let moving = if moves_end {
                    sel.end
                } else {
                    sel.start
                };
                let facts = if moves_end {
                    m.at_end
                } else {
                    m.at_start
                };
                let target = if mods.spec_ctrl() {
                    Some(spec_next_word_line(moving, facts))
                } else {
                    facts.step
                };
                &&& target is None ==> e == no_edit()
                &&& target matches Some(t) ==> e.selection == SelChange::Select(
                    spec_unordered(fixed, t),
                ) && e.cursor == CursorChange::To(
                    if mods.spec_alt() {
                        fixed
                    } else {
                        t
                    },
                ) && e.reset_blink
            })
        }),
{
}

/// A single click puts the cursor at the clicked position. Without shift it clears the
/// selection. With shift it selects, in order, from an anchor to the clicked position: the end
/// of the old selection that the cursor is not at (its end where the cursor is at its start,
/// else its start), or the cursor where there is no selection.
pub proof fn law_click_once(shift: bool, ci: ClickInput)
    requires
        ci.clicked is Some,
    ensures
        ({
            let k = ci.clicked.unwrap();
            let e = spec_click(1, shift, ci);
            &&& e.cursor == CursorChange::To(k)
            &&& e.check_in_view && e.reset_blink
            &&& !shift ==> e.selection == SelChange::Clear
            &&& (shift && ci.selection is Some ==> {
                let ex = ci.selection.unwrap();
                let anchor = if ci.cursor == Some(ex.start) {
                    ex.end
                } else {
                    ex.start
                };
                &&& e.selection == SelChange::Select(spec_unordered(anchor, k))
                &&& (ci.cursor == Some(ex.end) && ex.start != ex.end ==> e.selection
                    == SelChange::Select(spec_unordered(ex.start, k)))
            })
            &&& (shift && ci.selection is None && ci.cursor is Some ==> e.selection
                == SelChange::Select(spec_unordered(ci.cursor.unwrap(), k)))
            &&& (shift && ci.selection is None && ci.cursor is None ==> e.selection
                == SelChange::Keep)
        }),
{
}

/// A double or triple click selects the word or line around the clicked position and puts the
/// cursor at its end; with shift and an old selection the two are joined (from the earlier
/// start to the later end) and the cursor goes to the end that moved. A click on no position
/// changes nothing.
pub proof fn law_click_many(count: u8, shift: bool, ci: ClickInput)
    requires
        2 <= count <= 3,
    ensures
        ({
            let e = spec_click(count, shift, ci);
            &&& ci.clicked is None ==> e == no_edit()
            &&& (ci.clicked is Some && ci.word_or_line is Some ==> {
                let w = ci.word_or_line.unwrap();
                &&& !shift || ci.selection is None ==> e.selection == SelChange::Select(w)
                    && e.cursor == CursorChange::To(w.end)
                &&& (shift && ci.selection is Some ==> {
                    let ex = ci.selection.unwrap();
                    &&& e.selection == SelChange::Select(
                        TextSel {
                            start: if pos_lt(w.start, ex.start) {
                                w.start
                            } else {
                                ex.start
                            },
                            end: if pos_lt(ex.end, w.end) {
                                w.end
                            } else {
                                ex.end
                            },
                        },
                    )
                    &&& e.cursor == CursorChange::To(
                        if pos_lt(ex.start, w.start) {
                            w.end
                        } else {
                            w.start
                        },
                    )
                })
            })
            &&& (ci.clicked is Some && ci.word_or_line is None ==> e.selection
                == SelChange::Clear && e.cursor == CursorChange::To(ci.clicked.unwrap()))
        }),
{
}

/// A typed character that is not ignored (no alt, and no ctrl unless it is a backspace)
/// deletes any selection first, whether or not it is a backspace. A backspace that deleted no
/// selection deletes a word back (to the line start with shift) with ctrl, else a character;
/// another character is inserted, a carriage return as a line feed.
pub proof fn law_char_typed(mods: Modifiers, c: char, is_backspace: bool, has_selection: bool)
    requires
        !mods.spec_alt(),
        is_backspace || !mods.spec_ctrl(),
    ensures
        ({
            let a = spec_char_action(mods, c, is_backspace, has_selection);
            &&& !a.ignore
            &&& a.delete_selection == has_selection
            &&& !is_backspace ==> a.step == CharStep::Insert(
                if c == '\r' {
                    '\n'
                } else {
                    c
                },
            )
            &&& is_backspace && !has_selection && mods.spec_ctrl() ==> a.step
                == CharStep::DeleteWord { up: mods.spec_shift() }
            &&& is_backspace && !has_selection && !mods.spec_ctrl() ==> a.step
                == CharStep::DeleteChar
        }),
{
}

/// Home and End look up the line edge from the near end of the selection (its start for Home,
/// its end for End), or from the cursor where there is no selection; the edit clears the
/// selection and puts the cursor at the edge, or at that near end where there is no edge.
pub proof fn law_line_edge(cursor: Option<TextPos>, selection: Option<TextSel>, edge: Option<TextPos>)
    ensures
        selection matches Some(sel) ==> spec_line_edge_origin(cursor, selection, Direction::Up)
            == Some(sel.start) && spec_line_edge_origin(cursor, selection, Direction::Down) == Some(
            sel.end,
        ),
        selection is None ==> spec_line_edge_origin(cursor, selection, Direction::Up) == cursor
            && spec_line_edge_origin(cursor, selection, Direction::Down) == cursor,
        ({
            let up = spec_line_edge_move(selection, Direction::Up, edge);
            let down = spec_line_edge_move(selection, Direction::Down, edge);
            &&& up.check_in_view && up.reset_blink && up.scroll is None
            &&& selection is Some ==> up.selection == SelChange::Clear && down.selection
                == SelChange::Clear
            &&& selection is None ==> up.selection == SelChange::Keep && down.selection
                == SelChange::Keep
            &&& edge is Some ==> up.cursor == CursorChange::To(edge.unwrap()) && down.cursor
                == CursorChange::To(edge.unwrap())
            &&& edge is None && selection is Some ==> up.cursor == CursorChange::To(
                selection.unwrap().start,
            ) && down.cursor == CursorChange::To(selection.unwrap().end)
            &&& edge is None && selection is None ==> up.cursor == CursorChange::Keep
        }),
{
}

} // verus!
