use basalt_widgets::modifiers::Modifiers;
use basalt_widgets::text_cursor::{
    char_action, click, collapse, drag, line_edge_move, line_edge_origin, move_cursor_direction, next_press_count, next_word_line,
    text_pos_lt, unordered, word_delete_range, CharStep, ClickInput, CursorChange, Direction,
    CursorEdit, LineScroll, MoveInput, NavFacts, SelChange, TextPos, TextSel,
};

fn p(byte: usize) -> TextPos {
    TextPos { span: 0, byte_s: byte, byte_e: byte + 1, after: false }
}

fn facts(edge: Option<TextPos>, equiv: bool, step: Option<TextPos>, step_edge: Option<TextPos>) -> NavFacts {
    NavFacts { edge, edge_equiv: equiv, step, step_edge }
}

fn no_facts() -> NavFacts {
    facts(None, false, None, None)
}

fn input(cursor: Option<TextPos>, selection: Option<TextSel>) -> MoveInput {
    MoveInput {
        cursor,
        selection,
        at_cursor: no_facts(),
        at_start: no_facts(),
        at_end: no_facts(),
        cursor_step: None,
    }
}

#[test]
fn cursor_order_and_unordered() {
    assert!(text_pos_lt(p(1), p(2)));
    assert!(!text_pos_lt(p(2), p(1)));
    assert!(!text_pos_lt(p(2), p(2)));
    let later_span = TextPos { span: 1, byte_s: 0, byte_e: 1, after: false };
    assert!(text_pos_lt(p(9), later_span));
    let after = TextPos { after: true, ..p(3) };
    assert!(text_pos_lt(p(3), after));
    assert_eq!(unordered(p(5), p(2)), TextSel { start: p(2), end: p(5) });
    assert_eq!(unordered(p(2), p(5)), TextSel { start: p(2), end: p(5) });
}

#[test]
fn cursor_next_word_line() {
    assert_eq!(next_word_line(p(5), &facts(None, false, None, None)), p(5));
    assert_eq!(next_word_line(p(5), &facts(Some(p(2)), false, None, None)), p(2));
    assert_eq!(next_word_line(p(5), &facts(Some(p(5)), true, None, None)), p(5));
    assert_eq!(next_word_line(p(5), &facts(Some(p(5)), true, Some(p(4)), None)), p(4));
    assert_eq!(next_word_line(p(5), &facts(Some(p(5)), true, Some(p(4)), Some(p(0)))), p(0));
}

#[test]
fn cursor_plain_arrows() {
    let mut m = input(Some(p(3)), None);
    m.cursor_step = Some(p(4));
    let e = move_cursor_direction(Modifiers::none(), Direction::Right, &m);
    assert_eq!(e.cursor, CursorChange::To(p(4)));
    assert_eq!(e.selection, SelChange::Keep);
    assert!(e.reset_blink && e.check_in_view);
    let sel = TextSel { start: p(2), end: p(6) };
    let m = input(Some(p(6)), Some(sel));
    let e = move_cursor_direction(Modifiers::none(), Direction::Up, &m);
    assert_eq!(e.cursor, CursorChange::To(p(2)));
    assert_eq!(e.selection, SelChange::Clear);
    let e = move_cursor_direction(Modifiers::none(), Direction::Down, &m);
    assert_eq!(e.cursor, CursorChange::To(p(6)));
    assert_eq!(collapse(sel, Direction::Left), p(2));
    let m = input(None, None);
    let e = move_cursor_direction(Modifiers::none(), Direction::Left, &m);
    assert_eq!(e.cursor, CursorChange::Keep);
}

#[test]
fn cursor_shift_arrows() {
    // no selection: select to the word edge
    let mut m = input(Some(p(5)), None);
    m.at_cursor = facts(Some(p(8)), false, None, None);
    let e = move_cursor_direction(Modifiers::left_shift(), Direction::Right, &m);
    assert_eq!(e.selection, SelChange::Select(TextSel { start: p(5), end: p(8) }));
    assert_eq!(e.cursor, CursorChange::To(p(8)));
    assert!(!e.reset_blink);
    // with alt and no selection nothing happens
    let e = move_cursor_direction(Modifiers::left_shift() | Modifiers::left_alt(), Direction::Right, &m);
    assert_eq!(e.selection, SelChange::Keep);
    assert_eq!(e.cursor, CursorChange::Keep);
    // with a selection, the end at the cursor moves by a step
    let sel = TextSel { start: p(2), end: p(6) };
    let mut m = input(Some(p(6)), Some(sel));
    m.at_end = facts(None, false, Some(p(7)), None);
    let e = move_cursor_direction(Modifiers::right_shift(), Direction::Right, &m);
    assert_eq!(e.selection, SelChange::Select(TextSel { start: p(2), end: p(7) }));
    assert_eq!(e.cursor, CursorChange::To(p(7)));
    assert!(e.reset_blink);
    // with alt the other end moves and the cursor stays at the fixed end
    m.at_start = facts(None, false, Some(p(1)), None);
    let e = move_cursor_direction(Modifiers::right_shift() | Modifiers::left_alt(), Direction::Left, &m);
    assert_eq!(e.selection, SelChange::Select(TextSel { start: p(1), end: p(6) }));
    assert_eq!(e.cursor, CursorChange::To(p(6)));
    // a moving end that crosses the fixed end gives a reordered selection
    let mut m = input(Some(p(6)), Some(TextSel { start: p(5), end: p(6) }));
    m.at_end = facts(Some(p(0)), false, None, None);
    let e = move_cursor_direction(Modifiers::left_shift() | Modifiers::left_ctrl(), Direction::Left, &m);
    assert_eq!(e.selection, SelChange::Select(TextSel { start: p(0), end: p(5) }));
    assert_eq!(e.cursor, CursorChange::To(p(0)));
}

#[test]
fn cursor_ctrl_arrows() {
    let mut m = input(Some(p(5)), None);
    m.at_cursor = facts(Some(p(0)), false, None, None);
    let e = move_cursor_direction(Modifiers::left_ctrl(), Direction::Left, &m);
    assert_eq!(e.cursor, CursorChange::To(p(0)));
    assert_eq!(e.selection, SelChange::Clear);
    let e = move_cursor_direction(Modifiers::left_ctrl(), Direction::Up, &m);
    assert_eq!(e.scroll, Some(LineScroll::Up));
    assert_eq!(e.cursor, CursorChange::Keep);
    let e = move_cursor_direction(Modifiers::left_ctrl(), Direction::Down, &m);
    assert_eq!(e.scroll, Some(LineScroll::Down));
    let mut m = input(Some(p(5)), Some(TextSel { start: p(3), end: p(5) }));
    m.at_end = facts(Some(p(9)), false, None, None);
    let e = move_cursor_direction(Modifiers::right_ctrl(), Direction::Right, &m);
    assert_eq!(e.cursor, CursorChange::To(p(9)));
}

#[test]
fn cursor_clicks() {
    assert_eq!(next_press_count(0, None), 1);
    assert_eq!(next_press_count(1, Some(true)), 2);
    assert_eq!(next_press_count(2, Some(true)), 3);
    assert_eq!(next_press_count(3, Some(true)), 1);
    assert_eq!(next_press_count(2, Some(false)), 1);
    let ci = ClickInput { cursor: Some(p(2)), selection: None, clicked: Some(p(7)), word_or_line: None };
    let e = click(1, false, &ci);
    assert_eq!(e.cursor, CursorChange::To(p(7)));
    assert_eq!(e.selection, SelChange::Clear);
    let e = click(1, true, &ci);
    assert_eq!(e.selection, SelChange::Select(TextSel { start: p(2), end: p(7) }));
    let ci2 = ClickInput {
        cursor: Some(p(4)),
        selection: Some(TextSel { start: p(4), end: p(6) }),
        clicked: Some(p(1)),
        word_or_line: None,
    };
    let e = click(1, true, &ci2);
    assert_eq!(e.selection, SelChange::Select(TextSel { start: p(1), end: p(6) }));
    let ci3 = ClickInput { word_or_line: Some(TextSel { start: p(6), end: p(9) }), ..ci2 };
    let e = click(2, false, &ci3);
    assert_eq!(e.selection, SelChange::Select(TextSel { start: p(6), end: p(9) }));
    assert_eq!(e.cursor, CursorChange::To(p(9)));
    let e = click(3, true, &ci3);
    assert_eq!(e.selection, SelChange::Select(TextSel { start: p(4), end: p(9) }));
    assert_eq!(e.cursor, CursorChange::To(p(9)));
    let ci4 = ClickInput { word_or_line: None, ..ci3 };
    let e = click(2, false, &ci4);
    assert_eq!(e.selection, SelChange::Clear);
    let miss = ClickInput { clicked: None, ..ci };
    assert_eq!(click(1, false, &miss).cursor, CursorChange::Keep);
}

#[test]
fn cursor_drag() {
    let e = drag(Some(p(3)), None, Some(p(8)));
    assert_eq!(e.selection, SelChange::Select(TextSel { start: p(3), end: p(8) }));
    assert_eq!(e.cursor, CursorChange::To(p(8)));
    let sel = TextSel { start: p(3), end: p(8) };
    let e = drag(Some(p(8)), Some(sel), Some(p(3)));
    assert_eq!(e.selection, SelChange::Clear);
    let e = drag(Some(p(8)), Some(sel), None);
    assert_eq!(e.cursor, CursorChange::Remove);
    assert_eq!(drag(None, None, Some(p(1))).cursor, CursorChange::Keep);
}

#[test]
fn cursor_typed_characters() {
    let a = char_action(Modifiers::none(), 'a', false, false);
    assert!(!a.ignore && !a.delete_selection);
    assert_eq!(a.step, CharStep::Insert('a'));
    assert_eq!(char_action(Modifiers::none(), '\r', false, true).step, CharStep::Insert('\n'));
    assert!(char_action(Modifiers::left_ctrl(), 'c', false, false).ignore);
    assert!(char_action(Modifiers::left_alt(), '\u{8}', true, false).ignore);
    assert_eq!(char_action(Modifiers::none(), '\u{8}', true, false).step, CharStep::DeleteChar);
    assert_eq!(char_action(Modifiers::left_ctrl(), '\u{8}', true, false).step, CharStep::DeleteWord { up: false });
    let both = Modifiers::left_ctrl() | Modifiers::right_shift();
    assert_eq!(char_action(both, '\u{8}', true, false).step, CharStep::DeleteWord { up: true });
    let a = char_action(Modifiers::none(), '\u{8}', true, true);
    assert!(a.delete_selection);
    assert_eq!(a.step, CharStep::Nothing);
    let f = facts(Some(p(0)), false, None, None);
    assert_eq!(word_delete_range(Some(p(4)), &f), Some(TextSel { start: p(0), end: p(4) }));
    assert_eq!(word_delete_range(None, &f), None);
    let f = facts(Some(p(4)), true, None, None);
    assert_eq!(word_delete_range(Some(p(4)), &f), None);
}

#[test]
fn cursor_home_end() {
    let sel = TextSel { start: p(2), end: p(6) };
    // a selection collapses to its near end, which is where the line edge is looked up
    assert_eq!(line_edge_origin(Some(p(6)), Some(sel), Direction::Up), Some(p(2)));
    assert_eq!(line_edge_origin(Some(p(2)), Some(sel), Direction::Down), Some(p(6)));
    assert_eq!(line_edge_origin(Some(p(4)), None, Direction::Up), Some(p(4)));
    assert_eq!(line_edge_origin(None, None, Direction::Down), None);
    let e = line_edge_move(Some(sel), Direction::Up, Some(p(0)));
    assert_eq!(
        e,
        CursorEdit {
            selection: SelChange::Clear,
            cursor: CursorChange::To(p(0)),
            scroll: None,
            check_in_view: true,
            reset_blink: true,
        }
    );
    // with no edge the cursor stays at the selection's near end
    let e = line_edge_move(Some(sel), Direction::Down, None);
    assert_eq!(e.cursor, CursorChange::To(p(6)));
    let e = line_edge_move(None, Direction::Down, Some(p(9)));
    assert_eq!((e.selection, e.cursor), (SelChange::Keep, CursorChange::To(p(9))));
    let e = line_edge_move(None, Direction::Up, None);
    assert_eq!((e.selection, e.cursor), (SelChange::Keep, CursorChange::Keep));
}
