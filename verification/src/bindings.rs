//! The key bindings of the editor.
use vstd::prelude::*;

use crate::buffer::Mark;
use crate::command::{Action, BuilderEvent, Command, Instruction, Operation};
use crate::key::Key;
use crate::textobject::{Anchor, Kind, Offset, TextObject};

verus! {

/// The command that a key is bound to; an unbound key does nothing.
pub open spec fn key_binding(key: Key) -> Command {
    match key {
        // Editor commands
        Key::Ctrl('q') => Command::exit_editor(),
        Key::Ctrl('s') => Command::save_buffer(),
        // Editing the selection
        Key::Ctrl('k') => Command::delete_selection(),
        Key::Ctrl('d') => Command::duplicate_selection(),
        Key::Ctrl('x') => Command::cut_selection(),
        Key::Ctrl('c') => Command::copy_selection(),
        Key::Ctrl('v') => Command::paste(),
        Key::CtrlUp => Command::move_selection(false),
        Key::CtrlDown => Command::move_selection(true),
        // History
        Key::Ctrl('z') => Command::undo(),
        Key::Ctrl('y') => Command::redo(),
        Key::Char(c) => Command::insert_char(c),
        // Cursor movement
        Key::Up => Command::movement(
            Offset::Backward(1, Mark::Cursor(0)),
            Kind::Line(Anchor::Same),
        ),
        Key::Down => Command::movement(
            Offset::Forward(1, Mark::Cursor(0)),
            Kind::Line(Anchor::Same),
        ),
        Key::Left => Command::movement(Offset::Backward(1, Mark::Cursor(0)), Kind::Char),
        Key::Right => Command::movement(Offset::Forward(1, Mark::Cursor(0)), Kind::Char),
        Key::CtrlRight => Command::movement(
            Offset::Forward(1, Mark::Cursor(0)),
            Kind::Word(Anchor::Start),
        ),
        Key::CtrlLeft => Command::movement(
            Offset::Backward(1, Mark::Cursor(0)),
            Kind::Word(Anchor::Start),
        ),
        Key::End => Command::movement(
            Offset::Forward(0, Mark::Cursor(0)),
            Kind::Line(Anchor::End),
        ),
        Key::Home => Command::movement(
            Offset::Backward(0, Mark::Cursor(0)),
            Kind::Line(Anchor::Start),
        ),
        _ => Command::noop(),
    }
}

/// Every character typed is inserted as it is, once, where the cursor is; no
/// other key inserts anything.
pub proof fn lemma_characters_are_inserted(c: char, key: Key)
    ensures
        key_binding(Key::Char(c)) == (Command {
            number: 1,
            action: Action::Operation(Operation::Insert(c)),
            object: None,
        }),
        (key_binding(key).action matches Action::Operation(Operation::Insert(_))) <==> key is Char,
{
}

/// Only Ctrl-q quits, and only Ctrl-s saves.
pub proof fn lemma_quit_and_save_keys(key: Key)
    ensures
        (key_binding(key).action matches Action::Instruction(Instruction::ExitEditor)) <==> key
            == Key::Ctrl('q'),
        (key_binding(key).action matches Action::Instruction(Instruction::SaveBuffer)) <==> key
            == Key::Ctrl('s'),
{
}

/// The bindings the editor documents: save and quit; delete, duplicate, cut,
/// copy and paste the selection; move it up and down; undo and redo.
pub proof fn lemma_documented_bindings()
    ensures
        key_binding(Key::Ctrl('s')) == (Command {
            number: 0,
            action: Action::Instruction(Instruction::SaveBuffer),
            object: None,
        }),
        key_binding(Key::Ctrl('q')) == (Command {
            number: 0,
            action: Action::Instruction(Instruction::ExitEditor),
            object: None,
        }),
        key_binding(Key::Ctrl('k')) == (Command {
            number: 1,
            action: Action::Operation(Operation::DeleteSelection),
            object: None,
        }),
        key_binding(Key::Ctrl('d')) == (Command {
            number: 1,
            action: Action::Operation(Operation::DuplicateSelection),
            object: None,
        }),
        key_binding(Key::Ctrl('x')) == (Command {
            number: 1,
            action: Action::Operation(Operation::CutSelection),
            object: None,
        }),
        key_binding(Key::Ctrl('c')) == (Command {
            number: 1,
            action: Action::Operation(Operation::CopySelection),
            object: None,
        }),
        key_binding(Key::Ctrl('v')) == (Command {
            number: 1,
            action: Action::Operation(Operation::Paste),
            object: None,
        }),
        key_binding(Key::Ctrl('z')) == (Command {
            number: 1,
            action: Action::Operation(Operation::Undo),
            object: None,
        }),
        key_binding(Key::Ctrl('y')) == (Command {
            number: 1,
            action: Action::Operation(Operation::Redo),
            object: None,
        }),
        key_binding(Key::CtrlUp) == (Command {
            number: 1,
            action: Action::Operation(Operation::MoveSelection(false)),
            object: None,
        }),
        key_binding(Key::CtrlDown) == (Command {
            number: 1,
            action: Action::Operation(Operation::MoveSelection(true)),
            object: None,
        }),
{
}

/// Arrow keys, Home and End move the cursor, once: up and down by a line,
/// left and right by a character, with Ctrl by a word, and Home and End to the
/// start and end of the line. Each move counts from the cursor.
pub proof fn lemma_movement_keys(key: Key)
    ensures
        (key is Up || key is Down || key is Left || key is Right || key is CtrlLeft
            || key is CtrlRight || key is Home || key is End) ==> (key_binding(key).object matches Some(o)
            && key_binding(key).number == 1 && key_binding(key).action == Action::Instruction(
            Instruction::SetMark(Mark::Cursor(0)),
        ) && o.offset.origin() == Some(
            Mark::Cursor(0),
        ) && (o.offset is Backward <==> (key is Up || key is Left || key is CtrlLeft
            || key is Home)) && (o.offset is Forward <==> (key is Down || key is Right
            || key is CtrlRight || key is End)) && o.offset.count() == (if key is Home
            || key is End {
            0usize
        } else {
            1usize
        }) && o.kind == (if key is Up || key is Down {
            Kind::Line(Anchor::Same)
        } else if key is Left || key is Right {
            Kind::Char
        } else if key is CtrlLeft || key is CtrlRight {
            Kind::Word(Anchor::Start)
        } else if key is Home {
            Kind::Line(Anchor::Start)
        } else {
            Kind::Line(Anchor::End)
        })),
{
}

/// A key that is not bound does nothing.
pub proof fn lemma_unbound_keys_do_nothing(key: Key)
    requires
        !(key is Char || key is Up || key is Down || key is Left || key is Right
            || key is CtrlLeft || key is CtrlRight || key is CtrlUp || key is CtrlDown
            || key is Home || key is End),
        !(key == Key::Ctrl('q') || key == Key::Ctrl('s') || key == Key::Ctrl('k') || key
            == Key::Ctrl('d') || key == Key::Ctrl('x') || key == Key::Ctrl('c') || key
            == Key::Ctrl('v') || key == Key::Ctrl('z') || key == Key::Ctrl('y')),
    ensures
        key_binding(key) == (Command {
            number: 0,
            action: Action::Instruction(Instruction::Noop),
            object: None,
        }),
{
}

/// Turns a key press into the command it is bound to. Every key completes a command.
pub fn handle_key_event(key: Key) -> (r: BuilderEvent)
    ensures
        r == BuilderEvent::Complete(key_binding(key)),
{
    BuilderEvent::Complete(
        match key {
            // Editor commands
            Key::Ctrl('q') => Command::exit_editor(),
            Key::Ctrl('s') => Command::save_buffer(),
            // Editing the selection
            Key::Ctrl('k') => Command::delete_selection(),
            Key::Ctrl('d') => Command::duplicate_selection(),
            Key::Ctrl('x') => Command::cut_selection(),
            Key::Ctrl('c') => Command::copy_selection(),
            Key::Ctrl('v') => Command::paste(),
            Key::CtrlUp => Command::move_selection(false),
            Key::CtrlDown => Command::move_selection(true),
            // History
            Key::Ctrl('z') => Command::undo(),
            Key::Ctrl('y') => Command::redo(),
            Key::Char(c) => Command::insert_char(c),
            // Cursor movement
            Key::Up => Command::movement(
                Offset::Backward(1, Mark::Cursor(0)),
                Kind::Line(Anchor::Same),
            ),
            Key::Down => Command::movement(
                Offset::Forward(1, Mark::Cursor(0)),
                Kind::Line(Anchor::Same),
            ),
            Key::Left => Command::movement(Offset::Backward(1, Mark::Cursor(0)), Kind::Char),
            Key::Right => Command::movement(Offset::Forward(1, Mark::Cursor(0)), Kind::Char),
            Key::CtrlRight => Command::movement(
                Offset::Forward(1, Mark::Cursor(0)),
                Kind::Word(Anchor::Start),
            ),
            Key::CtrlLeft => Command::movement(
                Offset::Backward(1, Mark::Cursor(0)),
                Kind::Word(Anchor::Start),
            ),
            Key::End => Command::movement(
                Offset::Forward(0, Mark::Cursor(0)),
                Kind::Line(Anchor::End),
            ),
            Key::Home => Command::movement(
                Offset::Backward(0, Mark::Cursor(0)),
                Kind::Line(Anchor::Start),
            ),
            _ => Command::noop(),
        },
    )
}

} // verus!
