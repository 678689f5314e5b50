use custom_select::key::{ALT, CONTROL, SHIFT};
use custom_select::{
    ActionResult, CustomSelectConfig, CustomSelectPromptAction, InputAction, InputActionResult,
    Key, KeyModifiers, LineDirection, Magnitude,
};

fn vim() -> CustomSelectConfig {
    CustomSelectConfig { vim_mode: true, page_size: 7 }
}

fn plain() -> CustomSelectConfig {
    CustomSelectConfig { vim_mode: false, page_size: 7 }
}

fn decode(key: Key, config: CustomSelectConfig) -> Option<CustomSelectPromptAction> {
    CustomSelectPromptAction::from_key(key, &config)
}

#[test]
fn vim_j_moves_down_and_is_not_written() {
    let key = Key::Char('j', KeyModifiers::none());
    assert_eq!(decode(key, vim()), Some(CustomSelectPromptAction::MoveDown));
    assert_ne!(
        decode(key, vim()),
        Some(CustomSelectPromptAction::FilterInput(InputAction::Write('j')))
    );
}

#[test]
fn vim_k_moves_up() {
    let key = Key::Char('k', KeyModifiers::none());
    assert_eq!(decode(key, vim()), Some(CustomSelectPromptAction::MoveUp));
}

#[test]
fn without_vim_mode_j_and_k_are_written() {
    assert_eq!(
        decode(Key::Char('j', KeyModifiers::none()), plain()),
        Some(CustomSelectPromptAction::FilterInput(InputAction::Write('j')))
    );
    assert_eq!(
        decode(Key::Char('k', KeyModifiers::none()), plain()),
        Some(CustomSelectPromptAction::FilterInput(InputAction::Write('k')))
    );
}

#[test]
fn vim_keys_with_a_modifier_are_written() {
    let shifted = KeyModifiers::from_bits(SHIFT);
    assert_eq!(
        decode(Key::Char('j', shifted), vim()),
        Some(CustomSelectPromptAction::FilterInput(InputAction::Write('j')))
    );
    assert_eq!(
        decode(Key::Char('k', KeyModifiers::control()), vim()),
        Some(CustomSelectPromptAction::FilterInput(InputAction::Write('k')))
    );
}

#[test]
fn vim_mode_keeps_the_other_bindings() {
    assert_eq!(
        decode(Key::Up(KeyModifiers::none()), vim()),
        Some(CustomSelectPromptAction::MoveUp)
    );
    assert_eq!(decode(Key::PageDown, vim()), Some(CustomSelectPromptAction::PageDown));
    assert_eq!(
        decode(Key::Char('x', KeyModifiers::none()), vim()),
        Some(CustomSelectPromptAction::FilterInput(InputAction::Write('x')))
    );
}

#[test]
fn arrows_move_by_one() {
    assert_eq!(
        decode(Key::Up(KeyModifiers::none()), plain()),
        Some(CustomSelectPromptAction::MoveUp)
    );
    assert_eq!(
        decode(Key::Down(KeyModifiers::none()), plain()),
        Some(CustomSelectPromptAction::MoveDown)
    );
}

#[test]
fn control_p_and_control_n_move_by_one() {
    assert_eq!(
        decode(Key::Char('p', KeyModifiers::control()), plain()),
        Some(CustomSelectPromptAction::MoveUp)
    );
    assert_eq!(
        decode(Key::Char('n', KeyModifiers::control()), plain()),
        Some(CustomSelectPromptAction::MoveDown)
    );
}

#[test]
fn page_keys_and_ends() {
    assert_eq!(decode(Key::PageUp, plain()), Some(CustomSelectPromptAction::PageUp));
    assert_eq!(decode(Key::PageDown, plain()), Some(CustomSelectPromptAction::PageDown));
    assert_eq!(decode(Key::Home, plain()), Some(CustomSelectPromptAction::MoveToStart));
    assert_eq!(decode(Key::End, plain()), Some(CustomSelectPromptAction::MoveToEnd));
}

#[test]
fn arrows_with_a_modifier_do_not_move() {
    let shifted = KeyModifiers::from_bits(SHIFT);
    assert_eq!(decode(Key::Up(shifted), plain()), None);
    assert_eq!(decode(Key::Down(KeyModifiers::control()), plain()), None);
}

#[test]
fn p_and_n_need_control_alone() {
    let both = KeyModifiers::from_bits(CONTROL | ALT);
    assert_eq!(
        decode(Key::Char('p', both), plain()),
        Some(CustomSelectPromptAction::FilterInput(InputAction::Write('p')))
    );
    assert_eq!(
        decode(Key::Char('n', KeyModifiers::none()), plain()),
        Some(CustomSelectPromptAction::FilterInput(InputAction::Write('n')))
    );
}

#[test]
fn other_keys_go_to_the_filter() {
    assert_eq!(
        decode(Key::Backspace, plain()),
        Some(CustomSelectPromptAction::FilterInput(InputAction::Delete(
            Magnitude::Char,
            LineDirection::Left
        )))
    );
    assert_eq!(
        decode(Key::Left(KeyModifiers::control()), plain()),
        Some(CustomSelectPromptAction::FilterInput(InputAction::MoveCursor(
            Magnitude::Word,
            LineDirection::Left
        )))
    );
    assert_eq!(
        decode(Key::Char('a', KeyModifiers::none()), plain()),
        Some(CustomSelectPromptAction::FilterInput(InputAction::Write('a')))
    );
}

#[test]
fn keys_that_mean_nothing_are_dropped() {
    assert_eq!(decode(Key::Enter, plain()), None);
    assert_eq!(decode(Key::Escape, plain()), None);
    assert_eq!(decode(Key::Tab, vim()), None);
    assert_eq!(decode(Key::Any, vim()), None);
}

#[test]
fn text_input_keys() {
    let none = KeyModifiers::none();
    let control = KeyModifiers::control();
    let key = |k: Key| InputAction::from_key(k, &());
    assert_eq!(
        key(Key::Backspace),
        Some(InputAction::Delete(Magnitude::Char, LineDirection::Left))
    );
    assert_eq!(
        key(Key::Char('h', control)),
        Some(InputAction::Delete(Magnitude::Word, LineDirection::Left))
    );
    assert_eq!(key(Key::Char('h', none)), Some(InputAction::Write('h')));
    assert_eq!(
        key(Key::Delete(none)),
        Some(InputAction::Delete(Magnitude::Char, LineDirection::Right))
    );
    assert_eq!(
        key(Key::Delete(control)),
        Some(InputAction::Delete(Magnitude::Word, LineDirection::Right))
    );
    assert_eq!(
        key(Key::Home),
        Some(InputAction::MoveCursor(Magnitude::Line, LineDirection::Left))
    );
    assert_eq!(
        key(Key::End),
        Some(InputAction::MoveCursor(Magnitude::Line, LineDirection::Right))
    );
    assert_eq!(
        key(Key::Left(none)),
        Some(InputAction::MoveCursor(Magnitude::Char, LineDirection::Left))
    );
    assert_eq!(
        key(Key::Right(KeyModifiers::from_bits(CONTROL | SHIFT))),
        Some(InputAction::MoveCursor(Magnitude::Word, LineDirection::Right))
    );
    assert_eq!(
        key(Key::Right(none)),
        Some(InputAction::MoveCursor(Magnitude::Char, LineDirection::Right))
    );
    assert_eq!(key(Key::Char('x', control)), Some(InputAction::Write('x')));
    assert_eq!(key(Key::Up(none)), None);
    assert_eq!(key(Key::PageUp), None);
    assert_eq!(key(Key::Enter), None);
}

#[test]
fn modifiers_as_sets() {
    let both = KeyModifiers::from_bits(CONTROL | SHIFT);
    assert!(both.contains(KeyModifiers::control()));
    assert!(both.contains(KeyModifiers::none()));
    assert!(!KeyModifiers::control().contains(both));
    assert!(!KeyModifiers::none().contains(KeyModifiers::control()));
    assert!(KeyModifiers::none().is_empty());
    assert!(!both.is_empty());
    assert_eq!(KeyModifiers::control().bits, 2);
    assert_eq!(KeyModifiers::none().bits, 0);
}

#[test]
fn reports_and_redraws() {
    assert!(InputActionResult::ContentChanged.needs_redraw());
    assert!(InputActionResult::PositionChanged.needs_redraw());
    assert!(!InputActionResult::Clean.needs_redraw());
    assert!(ActionResult::NeedsRedraw.needs_redraw());
    assert!(!ActionResult::Clean.needs_redraw());
    assert_eq!(ActionResult::from(InputActionResult::ContentChanged), ActionResult::NeedsRedraw);
    assert_eq!(ActionResult::from(InputActionResult::PositionChanged), ActionResult::NeedsRedraw);
    assert_eq!(ActionResult::from(InputActionResult::Clean), ActionResult::Clean);
}
