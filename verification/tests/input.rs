use yatti::Action;
use yatti::KeyInput;
use yatti::handle_input;

#[test]
fn quit_key_quits() {
    assert_eq!(handle_input(KeyInput::Character('q')), Action::Quit);
    assert_eq!(handle_input(KeyInput::Escape), Action::Quit);
}

#[test]
fn other_characters_register_a_hit() {
    assert_eq!(handle_input(KeyInput::Character('a')), Action::RegisterHit);
    assert_eq!(handle_input(KeyInput::Character(' ')), Action::RegisterHit);
    assert_eq!(handle_input(KeyInput::Character('Q')), Action::RegisterHit);
    assert_eq!(handle_input(KeyInput::Enter), Action::RegisterHit);
}

#[test]
fn other_events_are_ignored() {
    assert_eq!(handle_input(KeyInput::OtherKey), Action::Ignore);
    assert_eq!(handle_input(KeyInput::OtherEvent), Action::Ignore);
}
