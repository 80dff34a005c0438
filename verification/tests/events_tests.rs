use activity_sim::events::click_events;
use activity_sim::events::insert_text_events;
use activity_sim::events::scroll_step_events;
use activity_sim::events::switch_tab_events;
use activity_sim::events::switch_window_events;
use activity_sim::events::type_code_events;
use activity_sim::events::EmuEvent;
use activity_sim::events::KeyCode;

#[test]
fn click_plan_moves_then_clicks() {
    let r = click_events(120, -45);
    assert_eq!(
        r,
        vec![
            EmuEvent::PointerMove { x: 120, y: -45 },
            EmuEvent::ButtonClickLeft,
        ]
    );
}

#[test]
fn switch_window_is_alt_tab_with_alt_released_first() {
    let r = switch_window_events();
    assert_eq!(
        r,
        vec![
            EmuEvent::KeyPress { key: KeyCode::Alt },
            EmuEvent::KeyPress { key: KeyCode::Tab },
            EmuEvent::KeyRelease { key: KeyCode::Alt },
            EmuEvent::KeyRelease { key: KeyCode::Tab },
        ]
    );
}

#[test]
fn switch_tab_holds_control_around_two_tab_pairs() {
    let r = switch_tab_events();
    assert_eq!(
        r,
        vec![
            EmuEvent::KeyPress { key: KeyCode::Control },
            EmuEvent::KeyPress { key: KeyCode::Tab },
            EmuEvent::KeyRelease { key: KeyCode::Tab },
            EmuEvent::KeyPress { key: KeyCode::Tab },
            EmuEvent::KeyRelease { key: KeyCode::Tab },
            EmuEvent::KeyRelease { key: KeyCode::Control },
        ]
    );
}

#[test]
fn scroll_positive_emits_len_unit_up_events() {
    let r = scroll_step_events(5);
    assert_eq!(r.len(), 5);
    for ev in &r {
        assert_eq!(*ev, EmuEvent::ScrollVertical { delta: 1 });
    }
}

#[test]
fn scroll_negative_emits_abs_len_unit_down_events() {
    let r = scroll_step_events(-3);
    assert_eq!(r.len(), 3);
    for ev in &r {
        assert_eq!(*ev, EmuEvent::ScrollVertical { delta: -1 });
    }
}

#[test]
fn scroll_zero_emits_nothing() {
    assert_eq!(scroll_step_events(0), vec![]);
}

#[test]
fn scroll_extremes_stay_unit_sized() {
    let up = scroll_step_events(100);
    assert_eq!(up.len(), 100);
    assert_eq!(up[99], EmuEvent::ScrollVertical { delta: 1 });
    let down = scroll_step_events(-100);
    assert_eq!(down.len(), 100);
    assert_eq!(down[0], EmuEvent::ScrollVertical { delta: -1 });
}

#[test]
fn insert_text_is_one_event_per_character() {
    let r = insert_text_events("ab c");
    assert_eq!(
        r,
        vec![
            EmuEvent::InsertChar { ch: 'a' },
            EmuEvent::InsertChar { ch: 'b' },
            EmuEvent::InsertChar { ch: ' ' },
            EmuEvent::InsertChar { ch: 'c' },
        ]
    );
}

#[test]
fn insert_text_of_empty_string_is_empty() {
    assert_eq!(insert_text_events(""), vec![]);
}

#[test]
fn type_code_plan_is_snippet_returns_log() {
    let snippet = "const result = 5;";
    let log = "console.log('Debug => result is => ', result);";
    let r = type_code_events();
    assert_eq!(r.len(), snippet.chars().count() + 4 + log.chars().count());
    let mut expected = Vec::new();
    for c in snippet.chars() {
        expected.push(EmuEvent::InsertChar { ch: c });
    }
    expected.push(EmuEvent::KeyPress { key: KeyCode::Return });
    expected.push(EmuEvent::KeyRelease { key: KeyCode::Return });
    expected.push(EmuEvent::KeyPress { key: KeyCode::Return });
    expected.push(EmuEvent::KeyRelease { key: KeyCode::Return });
    for c in log.chars() {
        expected.push(EmuEvent::InsertChar { ch: c });
    }
    assert_eq!(r, expected);
}
