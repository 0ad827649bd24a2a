use iota::buffer::Mark;
use iota::command::{Action, Command, Instruction, Operation};
use iota::textobject::{Anchor, Kind, Offset, TextObject};

#[test]
fn show_message_carries_the_message() {
    let c = Command::show_message("hello");
    assert_eq!(c.number, 0);
    assert!(c.object.is_none());
    assert!(matches!(c.action, Action::Instruction(Instruction::ShowMessage("hello"))));
}

#[test]
fn instruction_shortcuts() {
    let c = Command::exit_editor();
    assert_eq!(c.number, 0);
    assert!(c.object.is_none());
    assert!(matches!(c.action, Action::Instruction(Instruction::ExitEditor)));
    let c = Command::save_buffer();
    assert_eq!(c.number, 0);
    assert!(matches!(c.action, Action::Instruction(Instruction::SaveBuffer)));
    let c = Command::noop();
    assert_eq!(c.number, 0);
    assert!(c.object.is_none());
    assert!(matches!(c.action, Action::Instruction(Instruction::Noop)));
}

#[test]
fn operation_shortcuts() {
    let cases = [
        (Command::insert_char('x'), Operation::Insert('x')),
        (Command::insert_tab(), Operation::Insert('\t')),
        (Command::delete_selection(), Operation::DeleteSelection),
        (Command::duplicate_selection(), Operation::DuplicateSelection),
        (Command::cut_selection(), Operation::CutSelection),
        (Command::paste(), Operation::Paste),
        (Command::copy_selection(), Operation::CopySelection),
        (Command::move_selection(true), Operation::MoveSelection(true)),
        (Command::move_selection(false), Operation::MoveSelection(false)),
        (Command::undo(), Operation::Undo),
        (Command::redo(), Operation::Redo),
    ];
    for (c, expected) in cases {
        assert_eq!(c.number, 1);
        assert!(c.object.is_none());
        match c.action {
            Action::Operation(o) => assert_eq!(format!("{:?}", o), format!("{:?}", expected)),
            other => panic!("expected an operation, got {:?}", other),
        }
    }
}

#[test]
fn movement_moves_the_cursor_to_the_object() {
    let c = Command::movement(Offset::Forward(3, Mark::Cursor(0)), Kind::Word(Anchor::End));
    assert_eq!(c.number, 1);
    assert!(matches!(c.action, Action::Instruction(Instruction::SetMark(Mark::Cursor(0)))));
    assert_eq!(
        c.object,
        Some(TextObject { kind: Kind::Word(Anchor::End), offset: Offset::Forward(3, Mark::Cursor(0)) })
    );
}

#[test]
fn kinds_take_anchors() {
    assert_eq!(Kind::Char.with_anchor(Anchor::End), Kind::Char);
    assert_eq!(Kind::Line(Anchor::Start).with_anchor(Anchor::End), Kind::Line(Anchor::End));
    assert_eq!(Kind::Word(Anchor::Same).with_anchor(Anchor::Before), Kind::Word(Anchor::Before));
    assert_eq!(Kind::Char.get_anchor(), Anchor::Start);
    assert_eq!(Kind::Line(Anchor::After).get_anchor(), Anchor::After);
    assert_eq!(Kind::Word(Anchor::End).get_anchor(), Anchor::End);
    let k = Kind::Line(Anchor::Before);
    assert_eq!(k.with_anchor(k.get_anchor()), k);
    assert_eq!(k.with_anchor(Anchor::Start).with_anchor(Anchor::End), k.with_anchor(Anchor::End));
}

#[test]
fn offsets_take_counts() {
    assert_eq!(Offset::Absolute(2).with_num(9), Offset::Absolute(9));
    assert_eq!(Offset::Backward(1, Mark::Cursor(4)).with_num(5), Offset::Backward(5, Mark::Cursor(4)));
    assert_eq!(
        Offset::Forward(0, Mark::DisplayMark(1)).with_num(7),
        Offset::Forward(7, Mark::DisplayMark(1))
    );
}
