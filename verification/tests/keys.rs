use snake::command::{Command, Key, KeyPress, Modifiers};
use snake::direction::Direction;
use snake::game::Game;

const NONE: Modifiers = Modifiers { shift: false, control: false, alt: false, other: false };
const CONTROL: Modifiers = Modifiers { shift: false, control: true, alt: false, other: false };

fn press(key: Key, modifiers: Modifiers) -> Option<KeyPress> {
    Some(KeyPress { key, modifiers })
}

fn game() -> Game {
    Game::with_heading(10, 10, Direction::Right)
}

#[test]
fn no_key_is_no_command() {
    assert_eq!(game().get_command(None), None);
}

#[test]
fn q_and_escape_quit() {
    let g = game();
    assert_eq!(g.get_command(press(Key::Char('q'), NONE)), Some(Command::Quit));
    assert_eq!(g.get_command(press(Key::Char('Q'), NONE)), Some(Command::Quit));
    assert_eq!(g.get_command(press(Key::Esc, NONE)), Some(Command::Quit));
}

#[test]
fn q_quits_under_any_modifiers() {
    let g = game();
    let all = Modifiers { shift: true, control: true, alt: true, other: true };
    assert_eq!(g.get_command(press(Key::Char('q'), all)), Some(Command::Quit));
    assert_eq!(g.get_command(press(Key::Char('Q'), CONTROL)), Some(Command::Quit));
    assert_eq!(g.get_command(press(Key::Esc, all)), Some(Command::Quit));
}

#[test]
fn control_c_quits() {
    let g = game();
    assert_eq!(g.get_command(press(Key::Char('c'), CONTROL)), Some(Command::Quit));
    assert_eq!(g.get_command(press(Key::Char('C'), CONTROL)), Some(Command::Quit));
}

#[test]
fn c_without_control_alone_is_no_command() {
    let g = game();
    assert_eq!(g.get_command(press(Key::Char('c'), NONE)), None);
    assert_eq!(g.get_command(press(Key::Char('C'), NONE)), None);
    let with_shift = Modifiers { shift: true, control: true, alt: false, other: false };
    assert_eq!(g.get_command(press(Key::Char('C'), with_shift)), None);
    let with_alt = Modifiers { shift: false, control: true, alt: true, other: false };
    assert_eq!(g.get_command(press(Key::Char('c'), with_alt)), None);
    let with_other = Modifiers { shift: false, control: true, alt: false, other: true };
    assert_eq!(g.get_command(press(Key::Char('c'), with_other)), None);
}

#[test]
fn arrows_turn() {
    let g = game();
    assert_eq!(g.get_command(press(Key::Up, NONE)), Some(Command::Turn(Direction::Up)));
    assert_eq!(g.get_command(press(Key::Right, NONE)), Some(Command::Turn(Direction::Right)));
    assert_eq!(g.get_command(press(Key::Down, NONE)), Some(Command::Turn(Direction::Down)));
    assert_eq!(g.get_command(press(Key::Left, NONE)), Some(Command::Turn(Direction::Left)));
}

#[test]
fn arrows_turn_under_modifiers() {
    let g = game();
    assert_eq!(g.get_command(press(Key::Left, CONTROL)), Some(Command::Turn(Direction::Left)));
}

#[test]
fn other_keys_are_no_command() {
    let g = game();
    assert_eq!(g.get_command(press(Key::Other, NONE)), None);
    assert_eq!(g.get_command(press(Key::Char('x'), NONE)), None);
    assert_eq!(g.get_command(press(Key::Char('x'), CONTROL)), None);
    assert_eq!(g.get_command(press(Key::Char(' '), NONE)), None);
}
