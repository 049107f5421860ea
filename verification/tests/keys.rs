use typing_trainer::keys::{Input, RawKey};

#[test]
fn valid_keys_become_inputs() {
    assert_eq!(Input::from_key(RawKey::Char('q')), Some(Input::Char('q')));
    assert_eq!(Input::from_key(RawKey::Char(' ')), Some(Input::Char(' ')));
    assert_eq!(Input::from_key(RawKey::Backspace), Some(Input::Backspace));
    assert_eq!(Input::from_key(RawKey::Tab), Some(Input::Tab));
    assert_eq!(Input::from_key(RawKey::Enter), Some(Input::Enter));
    assert_eq!(Input::from_key(RawKey::Escape), Some(Input::Esc));
    assert_eq!(Input::from_key(RawKey::Other), None);
}

#[test]
fn is_valid_counts_the_invalid_keys_before() {
    let keys = vec![RawKey::Other, RawKey::Other, RawKey::Tab, RawKey::Other, RawKey::Enter];
    assert_eq!(Input::is_valid(&keys, 0), Some((Input::Tab, 2)));
    assert_eq!(Input::is_valid(&keys, 1), Some((Input::Tab, 1)));
    assert_eq!(Input::is_valid(&keys, 2), Some((Input::Tab, 0)));
    assert_eq!(Input::is_valid(&keys, 3), Some((Input::Enter, 1)));
}

#[test]
fn is_valid_waits_for_a_valid_key() {
    assert_eq!(Input::is_valid(&vec![], 0), None);
    assert_eq!(Input::is_valid(&vec![RawKey::Other, RawKey::Other], 0), None);
    assert_eq!(Input::is_valid(&vec![RawKey::Enter], 1), None);
    assert_eq!(Input::is_valid(&vec![RawKey::Enter], 7), None);
}
