use typing_trainer::analytics::Analytics;
use typing_trainer::errors::LineError;
use typing_trainer::keys::{Input, RawKey};
use typing_trainer::typing::{
    backspace, first_non_space, type_line, write_char, KeystrokeEngine, Render, Step,
};

fn counters(a: Analytics) -> (u64, u64, u64) {
    (a.errors, a.total_input_chars, a.line_length)
}

fn hit(c: char) -> Render {
    Render::Write { shown: c, matched: true }
}

fn wrong(c: char) -> Render {
    Render::Write { shown: c, matched: false }
}

/// Runs the keys through an engine one by one and returns the counters of a
/// line that is still being typed after them.
fn counters_after(line: &str, events: &[(Input, u64)]) -> (u64, u64, u64) {
    let (mut engine, _) = KeystrokeEngine::start(line, 1);
    for &(input, invalid) in events {
        match engine.step(input, invalid) {
            Step::Continue(next, _) => engine = next,
            Step::Done(_) => panic!("the line ended early"),
        }
    }
    counters(engine.analytics())
}

fn completed(typed: (Vec<Render>, Option<Result<Analytics, LineError>>)) -> (u64, u64, u64) {
    match typed.1 {
        Some(Ok(a)) => counters(a),
        other => panic!("not completed: {:?}", other),
    }
}

fn aborted(typed: (Vec<Render>, Option<Result<Analytics, LineError>>)) -> (u64, u64, u64) {
    match typed.1 {
        Some(Err(LineError::Esc(a))) => counters(a),
        other => panic!("not aborted: {:?}", other),
    }
}

#[test]
fn corrected_line_is_completed() {
    let keys = vec![
        RawKey::Char('a'),
        RawKey::Char('x'),
        RawKey::Backspace,
        RawKey::Char('b'),
        RawKey::Enter,
    ];
    let typed = type_line("ab", 1, &keys);
    assert_eq!(
        typed.0,
        vec![Render::MoveUp(2), hit('a'), wrong('b'), Render::MoveLeft(1), hit('b')]
    );
    // The closing Enter is one more keystroke and one more character.
    assert_eq!(completed(typed), (1, 5, 3));
}

#[test]
fn corrected_line_before_the_closing_enter() {
    let events = [
        (Input::Char('a'), 0),
        (Input::Char('x'), 0),
        (Input::Backspace, 0),
        (Input::Char('b'), 0),
    ];
    assert_eq!(counters_after("ab", &events), (1, 4, 2));
}

#[test]
fn esc_at_start_aborts_with_nothing_counted() {
    let typed = type_line("hi", 1, &vec![RawKey::Escape]);
    assert_eq!(typed.0, vec![Render::MoveUp(2)]);
    assert_eq!(aborted(typed), (0, 0, 0));
}

#[test]
fn esc_reports_the_counters_so_far() {
    let keys = vec![
        RawKey::Char('h'),
        RawKey::Char('x'),
        RawKey::Backspace,
        RawKey::Escape,
        RawKey::Char('i'),
    ];
    let typed = type_line("hi", 3, &keys);
    assert_eq!(typed.0, vec![Render::MoveUp(4), hit('h'), wrong('i'), Render::MoveLeft(1)]);
    assert_eq!(aborted(typed), (1, 3, 1));
}

#[test]
fn invalid_keys_before_esc_are_errors() {
    let keys = vec![RawKey::Char('h'), RawKey::Other, RawKey::Other, RawKey::Escape];
    assert_eq!(aborted(type_line("hi", 1, &keys)), (2, 1, 1));
}

#[test]
fn completed_length_is_typed_part_and_enter() {
    let keys = vec![
        RawKey::Char('f'),
        RawKey::Char('n'),
        RawKey::Char('('),
        RawKey::Char(')'),
        RawKey::Enter,
    ];
    let typed = type_line("    fn()", 2, &keys);
    assert_eq!(
        typed.0,
        vec![
            Render::MoveUp(3),
            Render::MoveRight(1),
            Render::MoveRight(1),
            Render::MoveRight(1),
            Render::MoveRight(1),
            hit('f'),
            hit('n'),
            hit('('),
            hit(')'),
        ]
    );
    assert_eq!(completed(typed), (0, 5, 5));
}

#[test]
fn line_waits_when_the_keys_run_out() {
    let typed = type_line("ab", 1, &vec![RawKey::Char('a')]);
    assert_eq!(typed.0, vec![Render::MoveUp(2), hit('a')]);
    assert!(typed.1.is_none());
    let typed = type_line("ab", 1, &vec![]);
    assert_eq!(typed.0, vec![Render::MoveUp(2)]);
    assert!(typed.1.is_none());
}

#[test]
fn trailing_invalid_keys_belong_to_no_event() {
    let typed = type_line("ab", 1, &vec![RawKey::Char('a'), RawKey::Other, RawKey::Other]);
    assert!(typed.1.is_none());
    assert_eq!(typed.0, vec![Render::MoveUp(2), hit('a')]);
}

#[test]
fn enter_in_the_middle_is_a_mistake() {
    assert_eq!(counters_after("ab", &[(Input::Enter, 0)]), (1, 1, 0));
    assert_eq!(counters_after("ab", &[(Input::Char('a'), 0), (Input::Enter, 0)]), (1, 2, 1));
    let keys = vec![RawKey::Enter, RawKey::Char('a'), RawKey::Char('b'), RawKey::Enter];
    let typed = type_line("ab", 1, &keys);
    assert_eq!(typed.0, vec![Render::MoveUp(2), hit('a'), hit('b')]);
    assert_eq!(completed(typed), (1, 4, 3));
}

#[test]
fn enter_on_an_empty_line_completes_it() {
    assert_eq!(completed(type_line("", 0, &vec![RawKey::Enter])), (0, 1, 1));
}

#[test]
fn line_of_spaces_is_skipped_whole() {
    let typed = type_line("   ", 0, &vec![RawKey::Enter]);
    assert_eq!(
        typed.0,
        vec![
            Render::MoveUp(1),
            Render::MoveRight(1),
            Render::MoveRight(1),
            Render::MoveRight(1)
        ]
    );
    assert_eq!(completed(typed), (0, 1, 1));
}

#[test]
fn tab_counts_as_four_spaces() {
    let (engine, _) = KeystrokeEngine::start("a  bcd", 1);
    match engine.step(Input::Tab, 0) {
        Step::Continue(next, renders) => {
            assert_eq!(renders, vec![wrong('a'), hit(' '), hit(' '), wrong('b')]);
            assert_eq!(counters(next.analytics()), (2, 4, 4));
        }
        Step::Done(_) => panic!("the line ended"),
    }
}

#[test]
fn tab_stops_at_the_end_of_the_line() {
    let (engine, _) = KeystrokeEngine::start("x y", 1);
    let engine = match engine.step(Input::Char('x'), 0) {
        Step::Continue(next, _) => next,
        Step::Done(_) => panic!("the line ended"),
    };
    match engine.step(Input::Tab, 1) {
        Step::Continue(next, renders) => {
            assert_eq!(renders, vec![hit(' '), wrong('y')]);
            assert_eq!(counters(next.analytics()), (2, 3, 3));
        }
        Step::Done(_) => panic!("the line ended"),
    }
}

#[test]
fn keys_past_the_end_are_errors() {
    let (engine, _) = KeystrokeEngine::start("a", 1);
    let engine = match engine.step(Input::Char('a'), 0) {
        Step::Continue(next, _) => next,
        Step::Done(_) => panic!("the line ended"),
    };
    let engine = match engine.step(Input::Char('z'), 0) {
        Step::Continue(next, renders) => {
            assert_eq!(renders, vec![wrong(' ')]);
            assert_eq!(counters(next.analytics()), (1, 1, 1));
            next
        }
        Step::Done(_) => panic!("the line ended"),
    };
    let engine = match engine.step(Input::Tab, 0) {
        Step::Continue(next, renders) => {
            assert_eq!(renders, vec![]);
            assert_eq!(counters(next.analytics()), (2, 1, 1));
            next
        }
        Step::Done(_) => panic!("the line ended"),
    };
    let engine = match engine.step(Input::Char(' '), 0) {
        Step::Continue(next, renders) => {
            assert_eq!(renders, vec![hit(' ')]);
            assert_eq!(counters(next.analytics()), (3, 1, 1));
            next
        }
        Step::Done(_) => panic!("the line ended"),
    };
    match engine.step(Input::Enter, 0) {
        Step::Done(Ok(a)) => assert_eq!(counters(a), (3, 2, 2)),
        other => panic!("not completed: {:?}", other),
    }
}

#[test]
fn backspace_at_start_changes_nothing() {
    let events = [(Input::Backspace, 0), (Input::Backspace, 0), (Input::Backspace, 0)];
    assert_eq!(counters_after("ab", &events), (0, 0, 0));
    let typed = type_line("ab", 1, &vec![RawKey::Backspace, RawKey::Backspace]);
    assert_eq!(typed.0, vec![Render::MoveUp(2)]);
}

#[test]
fn backspace_never_goes_below_the_start() {
    let events = [
        (Input::Char('a'), 0),
        (Input::Backspace, 0),
        (Input::Backspace, 0),
        (Input::Backspace, 0),
    ];
    assert_eq!(counters_after("ab", &events), (0, 2, 0));
}

#[test]
fn backspace_gives_one_character_back() {
    let (back, renders) = backspace(Analytics::new(3, 7, 2));
    assert_eq!(counters(back), (3, 8, 1));
    assert_eq!(renders, vec![Render::MoveLeft(1)]);
    let (back, renders) = backspace(Analytics::new(3, 7, 0));
    assert_eq!(counters(back), (3, 7, 0));
    assert_eq!(renders, vec![]);
}

#[test]
fn write_char_tells_match_from_mismatch() {
    assert_eq!(write_char('a', 'a'), (hit('a'), 0));
    assert_eq!(write_char('a', 'b'), (wrong('a'), 1));
    assert_eq!(write_char(' ', 'b'), (wrong(' '), 1));
}

#[test]
fn first_non_space_counts_leading_spaces() {
    assert_eq!(first_non_space(""), 0);
    assert_eq!(first_non_space("abc"), 0);
    assert_eq!(first_non_space("  abc  "), 2);
    assert_eq!(first_non_space("    "), 4);
    assert_eq!(first_non_space(" \tabc"), 1);
    assert_eq!(first_non_space("  ñandú"), 2);
}

#[test]
fn engine_starts_with_fresh_counters() {
    let (engine, renders) = KeystrokeEngine::start("  hi", 9);
    assert_eq!(counters(engine.analytics()), (0, 0, 0));
    assert_eq!(renders, vec![Render::MoveUp(10), Render::MoveRight(1), Render::MoveRight(1)]);
}

#[test]
fn typed_part_keeps_characters_beyond_ascii() {
    let keys = vec![RawKey::Char('ñ'), RawKey::Char('u'), RawKey::Enter];
    let typed = type_line(" ñu", 0, &keys);
    assert_eq!(typed.0, vec![Render::MoveUp(1), Render::MoveRight(1), hit('ñ'), hit('u')]);
    assert_eq!(completed(typed), (0, 3, 3));
}

#[test]
fn analytics_new_keeps_its_arguments() {
    let a = Analytics::new(1, 2, 3);
    assert_eq!(a.errors, 1);
    assert_eq!(a.total_input_chars, 2);
    assert_eq!(a.line_length, 3);
}

#[test]
fn engine_has_room_far_from_the_limit() {
    let (engine, _) = KeystrokeEngine::start("ab", 1);
    assert!(engine.has_room(0));
    assert!(engine.has_room(u64::MAX - 4));
    assert!(!engine.has_room(u64::MAX - 3));
    assert!(!engine.has_room(u64::MAX));
}
