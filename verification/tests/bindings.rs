use iota::bindings::handle_key_event;
use iota::buffer::Mark;
use iota::command::{Action, BuilderEvent, Command, Instruction, Operation};
use iota::key::Key;
use iota::textobject::{Anchor, Kind, Offset, TextObject};

fn command_of(key: Key) -> Command {
    match handle_key_event(key) {
        BuilderEvent::Complete(c) => c,
        other => panic!("expected a complete command, got {:?}", other),
    }
}

fn operation_of(key: Key) -> Operation {
    let c = command_of(key);
    assert_eq!(c.number, 1);
    assert!(c.object.is_none());
    match c.action {
        Action::Operation(o) => o,
        other => panic!("expected an operation, got {:?}", other),
    }
}

fn movement_of(key: Key) -> TextObject {
    let c = command_of(key);
    assert_eq!(c.number, 1);
    assert!(matches!(c.action, Action::Instruction(Instruction::SetMark(Mark::Cursor(0)))));
    c.object.expect("a movement has an object")
}

#[test]
fn ctrl_s_saves() {
    let c = command_of(Key::Ctrl('s'));
    assert_eq!(c.number, 0);
    assert!(c.object.is_none());
    assert!(matches!(c.action, Action::Instruction(Instruction::SaveBuffer)));
}

#[test]
fn ctrl_q_quits() {
    let c = command_of(Key::Ctrl('q'));
    assert_eq!(c.number, 0);
    assert!(c.object.is_none());
    assert!(matches!(c.action, Action::Instruction(Instruction::ExitEditor)));
}

#[test]
fn ctrl_k_deletes_selection() {
    assert!(matches!(operation_of(Key::Ctrl('k')), Operation::DeleteSelection));
}

#[test]
fn ctrl_d_duplicates_selection() {
    assert!(matches!(operation_of(Key::Ctrl('d')), Operation::DuplicateSelection));
}

#[test]
fn ctrl_x_cuts_selection() {
    assert!(matches!(operation_of(Key::Ctrl('x')), Operation::CutSelection));
}

#[test]
fn ctrl_c_copies_selection() {
    assert!(matches!(operation_of(Key::Ctrl('c')), Operation::CopySelection));
}

#[test]
fn ctrl_v_pastes() {
    assert!(matches!(operation_of(Key::Ctrl('v')), Operation::Paste));
}

#[test]
fn ctrl_z_undoes() {
    assert!(matches!(operation_of(Key::Ctrl('z')), Operation::Undo));
}

#[test]
fn ctrl_y_redoes() {
    assert!(matches!(operation_of(Key::Ctrl('y')), Operation::Redo));
}

#[test]
fn ctrl_up_moves_line_up() {
    assert!(matches!(operation_of(Key::CtrlUp), Operation::MoveSelection(false)));
}

#[test]
fn ctrl_down_moves_line_down() {
    assert!(matches!(operation_of(Key::CtrlDown), Operation::MoveSelection(true)));
}

#[test]
fn characters_are_inserted() {
    assert!(matches!(operation_of(Key::Char('a')), Operation::Insert('a')));
    assert!(matches!(operation_of(Key::Char('é')), Operation::Insert('é')));
}

#[test]
fn arrows_move_the_cursor() {
    assert_eq!(
        movement_of(Key::Up),
        TextObject { kind: Kind::Line(Anchor::Same), offset: Offset::Backward(1, Mark::Cursor(0)) }
    );
    assert_eq!(
        movement_of(Key::Down),
        TextObject { kind: Kind::Line(Anchor::Same), offset: Offset::Forward(1, Mark::Cursor(0)) }
    );
    assert_eq!(
        movement_of(Key::Left),
        TextObject { kind: Kind::Char, offset: Offset::Backward(1, Mark::Cursor(0)) }
    );
    assert_eq!(
        movement_of(Key::Right),
        TextObject { kind: Kind::Char, offset: Offset::Forward(1, Mark::Cursor(0)) }
    );
}

#[test]
fn ctrl_arrows_move_by_word() {
    assert_eq!(
        movement_of(Key::CtrlLeft),
        TextObject { kind: Kind::Word(Anchor::Start), offset: Offset::Backward(1, Mark::Cursor(0)) }
    );
    assert_eq!(
        movement_of(Key::CtrlRight),
        TextObject { kind: Kind::Word(Anchor::Start), offset: Offset::Forward(1, Mark::Cursor(0)) }
    );
}

#[test]
fn home_and_end_go_to_line_ends() {
    assert_eq!(
        movement_of(Key::Home),
        TextObject { kind: Kind::Line(Anchor::Start), offset: Offset::Backward(0, Mark::Cursor(0)) }
    );
    assert_eq!(
        movement_of(Key::End),
        TextObject { kind: Kind::Line(Anchor::End), offset: Offset::Forward(0, Mark::Cursor(0)) }
    );
}

#[test]
fn unbound_keys_do_nothing() {
    for key in [Key::Ctrl('w'), Key::Tab, Key::Esc, Key::F(3), Key::Unknown(7), Key::PageUp] {
        let c = command_of(key);
        assert_eq!(c.number, 0);
        assert!(c.object.is_none());
        assert!(matches!(c.action, Action::Instruction(Instruction::Noop)));
    }
}
