use group_multi_select::Cursor;
use group_multi_select::GroupMultiSelect;
use group_multi_select::GroupState;
use group_multi_select::ItemState;
use group_multi_select::KeyEvent;
use group_multi_select::RenderRow;
use group_multi_select::SessionStart;
use group_multi_select::StepAction;

#[test]
fn test_begin_no_groups_is_error() {
    let gs = GroupMultiSelect::new();
    assert!(matches!(gs.begin(), SessionStart::NoGroups));
}

#[test]
fn test_begin_all_empty_groups_short_circuits() {
    let gs = GroupMultiSelect::new()
        .group(String::from("A"), vec![])
        .group(String::from("B"), vec![]);
    match gs.begin() {
        SessionStart::Immediate(v) => {
            assert_eq!(v, vec![Vec::<usize>::new(), Vec::<usize>::new()]);
        }
        _ => panic!("expected an immediate empty result"),
    }
}

#[test]
fn test_begin_seeds_defaults_and_ignores_out_of_range() {
    let gs = GroupMultiSelect::new()
        .group(String::from("A"), vec![String::from("a1"), String::from("a2")])
        .group(String::from("B"), vec![String::from("b1")])
        .defaults(vec![vec![true], vec![true, true, true]]);
    match gs.begin() {
        SessionStart::Active(st) => {
            assert_eq!(st.checked, vec![vec![true, false], vec![true]]);
            assert_eq!((st.cursor.group_idx, st.cursor.item_idx), (0, None));
            assert_eq!(st.page_offset, 0);
        }
        _ => panic!("expected an active session"),
    }
}

#[test]
fn test_scenario_header_toggle_pair() {
    let gs = GroupMultiSelect::new()
        .group(String::from("A"), vec![String::from("a1"), String::from("a2")])
        .group(String::from("B"), vec![String::from("b1")]);
    let mut st = match gs.begin() {
        SessionStart::Active(st) => st,
        _ => panic!("expected an active session"),
    };
    assert_eq!((st.cursor.group_idx, st.cursor.item_idx), (0, None));

    let r = gs.step(&mut st, KeyEvent::Char(' '), 100, false);
    assert!(matches!(r, StepAction::Continue));
    assert_eq!(st.checked, vec![vec![true, true], vec![false]]);

    let r = gs.step(&mut st, KeyEvent::Char(' '), 100, false);
    assert!(matches!(r, StepAction::Continue));
    assert_eq!(st.checked, vec![vec![false, false], vec![false]]);
}

#[test]
fn test_scenario_cursor_skips_disabled_through_steps() {
    let gs = GroupMultiSelect::new().group_with_states(
        String::from("A"),
        vec![
            (String::from("a1"), ItemState::Normal),
            (
                String::from("a2"),
                ItemState::Disabled {
                    reason: String::from("x"),
                },
            ),
            (String::from("a3"), ItemState::Normal),
        ],
    );
    let mut st = match gs.begin() {
        SessionStart::Active(st) => st,
        _ => panic!("expected an active session"),
    };
    st.cursor = Cursor {
        group_idx: 0,
        item_idx: Some(0),
    };

    gs.step(&mut st, KeyEvent::ArrowDown, 100, false);
    assert_eq!((st.cursor.group_idx, st.cursor.item_idx), (0, Some(2)));

    gs.step(&mut st, KeyEvent::ArrowUp, 100, false);
    assert_eq!((st.cursor.group_idx, st.cursor.item_idx), (0, Some(0)));
}

#[test]
fn test_scenario_select_all_pair() {
    let gs = GroupMultiSelect::new()
        .group(String::from("A"), vec![String::from("a1"), String::from("a2")])
        .group(String::from("B"), vec![String::from("b1"), String::from("b2")])
        .defaults(vec![vec![true, false], vec![false, false]]);
    let mut st = match gs.begin() {
        SessionStart::Active(st) => st,
        _ => panic!("expected an active session"),
    };
    assert_eq!(st.checked, vec![vec![true, false], vec![false, false]]);

    gs.step(&mut st, KeyEvent::Char('a'), 100, false);
    assert_eq!(st.checked, vec![vec![true, true], vec![true, true]]);

    gs.step(&mut st, KeyEvent::Char('a'), 100, false);
    assert_eq!(st.checked, vec![vec![false, false], vec![false, false]]);
}

#[test]
fn test_select_all_never_touches_disabled() {
    let gs = GroupMultiSelect::new().group_with_states(
        String::from("A"),
        vec![
            (String::from("a1"), ItemState::Normal),
            (
                String::from("a2"),
                ItemState::Disabled {
                    reason: String::from("x"),
                },
            ),
        ],
    );
    let mut st = match gs.begin() {
        SessionStart::Active(st) => st,
        _ => panic!("expected an active session"),
    };
    gs.step(&mut st, KeyEvent::Char('a'), 100, false);
    assert_eq!(st.checked, vec![vec![true, false]]);
    gs.step(&mut st, KeyEvent::Char('a'), 100, false);
    assert_eq!(st.checked, vec![vec![false, false]]);
}

#[test]
fn test_enter_commits_selected_indices() {
    let gs = GroupMultiSelect::new()
        .group(
            String::from("A"),
            vec![String::from("a1"), String::from("a2"), String::from("a3")],
        )
        .group(String::from("B"), vec![String::from("b1")])
        .defaults(vec![vec![true, false, true], vec![false]]);
    let mut st = match gs.begin() {
        SessionStart::Active(st) => st,
        _ => panic!("expected an active session"),
    };
    match gs.step(&mut st, KeyEvent::Enter, 100, false) {
        StepAction::Committed(v) => {
            assert_eq!(v, vec![vec![0, 2], Vec::<usize>::new()]);
        }
        _ => panic!("expected a committed result"),
    }
}

#[test]
fn test_escape_cancels_only_when_allowed() {
    let gs = GroupMultiSelect::new().group(String::from("A"), vec![String::from("a1")]);
    let mut st = match gs.begin() {
        SessionStart::Active(st) => st,
        _ => panic!("expected an active session"),
    };
    assert!(matches!(
        gs.step(&mut st, KeyEvent::Escape, 100, false),
        StepAction::Continue
    ));
    assert!(matches!(
        gs.step(&mut st, KeyEvent::Escape, 100, true),
        StepAction::Cancelled
    ));
    assert!(matches!(
        gs.step(&mut st, KeyEvent::Char('q'), 100, true),
        StepAction::Cancelled
    ));
}

#[test]
fn test_unknown_keys_change_nothing() {
    let gs = GroupMultiSelect::new()
        .group(String::from("A"), vec![String::from("a1")])
        .defaults(vec![vec![true]]);
    let mut st = match gs.begin() {
        SessionStart::Active(st) => st,
        _ => panic!("expected an active session"),
    };
    let before = st.checked.clone();
    assert!(matches!(
        gs.step(&mut st, KeyEvent::Other, 100, false),
        StepAction::Continue
    ));
    assert!(matches!(
        gs.step(&mut st, KeyEvent::Char('x'), 100, true),
        StepAction::Continue
    ));
    assert_eq!(st.checked, before);
    assert_eq!((st.cursor.group_idx, st.cursor.item_idx), (0, None));
    assert_eq!(st.page_offset, 0);
}

#[test]
fn test_letter_keys_move_like_arrows() {
    let gs = GroupMultiSelect::new().group(
        String::from("A"),
        vec![String::from("a1"), String::from("a2")],
    );
    let mut st = match gs.begin() {
        SessionStart::Active(st) => st,
        _ => panic!("expected an active session"),
    };
    gs.step(&mut st, KeyEvent::Char('j'), 100, false);
    assert_eq!((st.cursor.group_idx, st.cursor.item_idx), (0, Some(0)));
    gs.step(&mut st, KeyEvent::Char('j'), 100, false);
    assert_eq!((st.cursor.group_idx, st.cursor.item_idx), (0, Some(1)));
    gs.step(&mut st, KeyEvent::Char('k'), 100, false);
    assert_eq!((st.cursor.group_idx, st.cursor.item_idx), (0, Some(0)));
}

#[test]
fn test_pager_follows_cursor_within_window() {
    let mut items = Vec::new();
    for k in 0..9 {
        items.push(format!("i{}", k));
    }
    let gs = GroupMultiSelect::new().group(String::from("A"), items);
    let mut st = match gs.begin() {
        SessionStart::Active(st) => st,
        _ => panic!("expected an active session"),
    };
    // walk down through all ten rows with a three-row window; the cursor's
    // flat index must always stay inside [offset, offset + 3)
    for _ in 0..12 {
        gs.step(&mut st, KeyEvent::ArrowDown, 3, false);
        let flat = gs.cursor_to_flat(st.cursor);
        assert!(st.page_offset <= flat && flat < st.page_offset + 3);
    }
    // and back up again
    for _ in 0..12 {
        gs.step(&mut st, KeyEvent::ArrowUp, 3, false);
        let flat = gs.cursor_to_flat(st.cursor);
        assert!(st.page_offset <= flat && flat < st.page_offset + 3);
    }
}

#[test]
fn test_render_paging_numbers() {
    let mut items = Vec::new();
    for k in 0..9 {
        items.push(format!("i{}", k));
    }
    let gs = GroupMultiSelect::new().group(String::from("A"), items);
    let st = match gs.begin() {
        SessionStart::Active(st) => st,
        _ => panic!("expected an active session"),
    };
    // ten rows in windows of three: four pages; offset 3 is page 2
    let frame = gs.render(&st.checked, st.cursor, 3, 3);
    assert_eq!(frame.paging, Some((2, 4)));
    assert_eq!(frame.rows.len(), 3);
    // a window that holds everything shows no page numbers
    let frame = gs.render(&st.checked, st.cursor, 0, 50);
    assert_eq!(frame.paging, None);
    assert_eq!(frame.rows.len(), 10);
    // the last page may be shorter
    let frame = gs.render(&st.checked, st.cursor, 9, 3);
    assert_eq!(frame.paging, Some((4, 4)));
    assert_eq!(frame.rows.len(), 1);
}

#[test]
fn test_render_row_facts() {
    let gs = GroupMultiSelect::new()
        .group_with_states(
            String::from("Targets"),
            vec![
                (String::from("a1"), ItemState::Normal),
                (
                    String::from("a2"),
                    ItemState::Disabled {
                        reason: String::from("busy"),
                    },
                ),
                (
                    String::from("a3"),
                    ItemState::Warning {
                        message: String::from("careful"),
                    },
                ),
            ],
        )
        .defaults(vec![vec![true, false, true]]);
    let st = match gs.begin() {
        SessionStart::Active(st) => st,
        _ => panic!("expected an active session"),
    };
    let frame = gs.render(&st.checked, st.cursor, 0, 100);
    assert_eq!(frame.rows.len(), 4);
    match &frame.rows[0] {
        RenderRow::Header { label, state, active } => {
            assert_eq!(label, "Targets");
            assert!(matches!(state, GroupState::Partial));
            assert!(active);
        }
        _ => panic!("expected a header row"),
    }
    match &frame.rows[1] {
        RenderRow::Item { text, checked, active } => {
            assert_eq!(text, "a1");
            assert!(*checked);
            assert!(!active);
        }
        _ => panic!("expected a normal item row"),
    }
    match &frame.rows[2] {
        RenderRow::DisabledItem { text, reason, active } => {
            assert_eq!(text, "a2");
            assert_eq!(reason, "busy");
            assert!(!active);
        }
        _ => panic!("expected a disabled item row"),
    }
    match &frame.rows[3] {
        RenderRow::WarningItem { text, message, checked, active } => {
            assert_eq!(text, "a3");
            assert_eq!(message, "careful");
            assert!(*checked);
            assert!(!active);
        }
        _ => panic!("expected a warning item row"),
    }
}

#[test]
fn test_build_result_projects_checked_flags() {
    let gs = GroupMultiSelect::new()
        .group(
            String::from("A"),
            vec![String::from("a1"), String::from("a2"), String::from("a3")],
        )
        .group(String::from("B"), vec![String::from("b1")]);
    let checked = vec![vec![true, false, true], vec![false]];
    let result = gs.build_result(&checked);
    assert_eq!(result, vec![vec![0, 2], Vec::<usize>::new()]);
}

#[test]
fn test_render_report_lists_selected_texts() {
    let gs = GroupMultiSelect::new()
        .group(String::from("A"), vec![String::from("a1"), String::from("a2")])
        .group(String::from("B"), vec![String::from("b1")]);
    let checked = vec![vec![true, false], vec![true]];
    let texts = gs.render_report(&checked);
    assert_eq!(texts, vec![String::from("a1"), String::from("b1")]);
}
