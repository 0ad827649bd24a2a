//! Commands for the editor, and a builder that puts them together from parts.
use vstd::prelude::*;

use crate::buffer::Mark;
use crate::overlay::OverlayType;
use crate::textobject::{Anchor, Kind, Offset, TextObject};

verus! {

/// Instructions for the editor.
/// These do NOT alter the text, but may change editor or view state.
#[derive(Copy, Clone, Debug)]
pub enum Instruction {
    SaveBuffer,
    ExitEditor,
    SetMark(Mark),
    SetOverlay(OverlayType),
    ShowMessage(&'static str),
    SwitchToLastBuffer,
    /// Do nothing.
    Noop,
}

/// Operations on the buffer.
/// These DO alter the text, but otherwise may NOT change editor or view state.
/// They are higher-level operations that depend on state (cursor and mark
/// locations and so on), as opposed to concrete changes at absolute indexes.
#[derive(Copy, Clone, Debug)]
pub enum Operation {
    /// Insert text.
    Insert(char),
    /// Delete some object.
    DeleteObject,
    /// Delete from some mark to an object.
    DeleteFromMark(Mark),
    /// Duplicate the selection.
    DuplicateSelection,
    /// Delete the selection.
    DeleteSelection,
    /// Cut the selection from the buffer to the clipboard.
    CutSelection,
    /// Copy the selection to the clipboard.
    CopySelection,
    /// Insert the clipboard.
    Paste,
    /// Move the current selection down (`true`) or up (`false`).
    MoveSelection(bool),
    /// Rewind the buffer's transaction log.
    Undo,
    /// Replay the buffer's transaction log.
    Redo,
}

/// Fragments that can be combined to specify a command.
#[derive(Copy, Clone, Debug)]
pub enum Partial {
    Kind(Kind),
    Anchor(Anchor),
    Object(TextObject),
    Action(Action),
}

/// What a command does.
#[derive(Copy, Clone, Debug)]
pub enum Action {
    Operation(Operation),
    Instruction(Instruction),
}

/// A complete, actionable command.
#[derive(Copy, Clone, Debug)]
pub struct Command {
    /// Numeric parameter: line number, repeat count and so on.
    pub number: i32,
    /// What to do.
    pub action: Action,
    /// Where to do it.
    pub object: Option<TextObject>,
}

impl Command {
    /// Display a message.
    #[verifier::allow_in_spec]
    pub fn show_message(msg: &'static str) -> Command
        returns
            (Command {
                action: Action::Instruction(Instruction::ShowMessage(msg)),
                number: 0,
                object: None,
            }),
    {
        Command {
            action: Action::Instruction(Instruction::ShowMessage(msg)),
            number: 0,
            object: None,
        }
    }

    /// Shortcut to create an ExitEditor command.
    #[verifier::allow_in_spec]
    pub fn exit_editor() -> Command
        returns
            (Command { number: 0, action: Action::Instruction(Instruction::ExitEditor), object: None }),
    {
        Command { number: 0, action: Action::Instruction(Instruction::ExitEditor), object: None }
    }

    /// Shortcut to create a SaveBuffer command.
    #[verifier::allow_in_spec]
    pub fn save_buffer() -> Command
        returns
            (Command { number: 0, action: Action::Instruction(Instruction::SaveBuffer), object: None }),
    {
        Command { number: 0, action: Action::Instruction(Instruction::SaveBuffer), object: None }
    }

    /// Shortcut to create an Insert command.
    #[verifier::allow_in_spec]
    pub fn insert_char(c: char) -> Command
        returns
            (Command { number: 1, action: Action::Operation(Operation::Insert(c)), object: None }),
    {
        Command { number: 1, action: Action::Operation(Operation::Insert(c)), object: None }
    }

    /// Shortcut to create an Insert command for a tab.
    #[verifier::allow_in_spec]
    pub fn insert_tab() -> Command
        returns
            (Command { number: 1, action: Action::Operation(Operation::Insert('\t')), object: None }),
    {
        Command { number: 1, action: Action::Operation(Operation::Insert('\t')), object: None }
    }

    /// Shortcut to create a DeleteSelection command.
    #[verifier::allow_in_spec]
    pub fn delete_selection() -> Command
        returns
            (Command { number: 1, action: Action::Operation(Operation::DeleteSelection), object: None }),
    {
        Command { number: 1, action: Action::Operation(Operation::DeleteSelection), object: None }
    }

    /// Shortcut to create a DuplicateSelection command.
    #[verifier::allow_in_spec]
    pub fn duplicate_selection() -> Command
        returns
            (Command { number: 1, action: Action::Operation(Operation::DuplicateSelection), object: None }),
    {
        Command { number: 1, action: Action::Operation(Operation::DuplicateSelection), object: None }
    }

    /// Shortcut to create a CutSelection command.
    #[verifier::allow_in_spec]
    pub fn cut_selection() -> Command
        returns
            (Command { number: 1, action: Action::Operation(Operation::CutSelection), object: None }),
    {
        Command { number: 1, action: Action::Operation(Operation::CutSelection), object: None }
    }

    /// Shortcut to create a Paste command.
    #[verifier::allow_in_spec]
    pub fn paste() -> Command
        returns
            (Command { number: 1, action: Action::Operation(Operation::Paste), object: None }),
    {
        Command { number: 1, action: Action::Operation(Operation::Paste), object: None }
    }

    /// Shortcut to create a CopySelection command.
    #[verifier::allow_in_spec]
    pub fn copy_selection() -> Command
        returns
            (Command { number: 1, action: Action::Operation(Operation::CopySelection), object: None }),
    {
        Command { number: 1, action: Action::Operation(Operation::CopySelection), object: None }
    }

    /// Shortcut to create a command that moves the selection down (`true`) or up (`false`).
    #[verifier::allow_in_spec]
    pub fn move_selection(down: bool) -> Command
        returns
            (Command { number: 1, action: Action::Operation(Operation::MoveSelection(down)), object: None }),
    {
        Command { number: 1, action: Action::Operation(Operation::MoveSelection(down)), object: None }
    }

    /// Shortcut to create an Undo command.
    #[verifier::allow_in_spec]
    pub fn undo() -> Command
        returns
            (Command { number: 1, action: Action::Operation(Operation::Undo), object: None }),
    {
        Command { number: 1, action: Action::Operation(Operation::Undo), object: None }
    }

    /// Shortcut to create a Redo command.
    #[verifier::allow_in_spec]
    pub fn redo() -> Command
        returns
            (Command { number: 1, action: Action::Operation(Operation::Redo), object: None }),
    {
        Command { number: 1, action: Action::Operation(Operation::Redo), object: None }
    }

    /// Shortcut to create a command that moves the cursor to a text object.
    #[verifier::allow_in_spec]
    pub fn movement(offset: Offset, kind: Kind) -> Command
        returns
            (Command { number: 1, action: Action::Instruction(Instruction::SetMark(Mark::Cursor(0))), object: Some(TextObject { kind: kind, offset: offset }) }),
    {
        Command { number: 1, action: Action::Instruction(Instruction::SetMark(Mark::Cursor(0))), object: Some(TextObject { kind: kind, offset: offset }) }
    }

    /// Shortcut to create a command that does nothing.
    #[verifier::allow_in_spec]
    pub fn noop() -> Command
        returns
            (Command { number: 0, action: Action::Instruction(Instruction::Noop), object: None }),
    {
        Command { number: 0, action: Action::Instruction(Instruction::Noop), object: None }
    }
}

/// The shortcuts: an instruction is sent with number 0, an operation is done
/// once, and only a movement names an object. A tab is inserted like any
/// character, a message is shown as given, and the selection moves in the
/// direction asked for.
pub proof fn lemma_shortcuts(c: char, msg: &'static str, down: bool, offset: Offset, kind: Kind)
    ensures
        Command::show_message(msg).action == Action::Instruction(Instruction::ShowMessage(msg)),
        Command::show_message(msg).number == 0 && Command::show_message(msg).object is None,
        Command::exit_editor().action == Action::Instruction(Instruction::ExitEditor),
        Command::exit_editor().number == 0 && Command::exit_editor().object is None,
        Command::save_buffer().action == Action::Instruction(Instruction::SaveBuffer),
        Command::save_buffer().number == 0 && Command::save_buffer().object is None,
        Command::noop().action == Action::Instruction(Instruction::Noop),
        Command::noop().number == 0 && Command::noop().object is None,
        Command::insert_char(c).action == Action::Operation(Operation::Insert(c)),
        Command::insert_char(c).number == 1 && Command::insert_char(c).object is None,
        Command::insert_tab() == Command::insert_char('\t'),
        Command::delete_selection().action == Action::Operation(Operation::DeleteSelection),
        Command::duplicate_selection().action == Action::Operation(Operation::DuplicateSelection),
        Command::cut_selection().action == Action::Operation(Operation::CutSelection),
        Command::paste().action == Action::Operation(Operation::Paste),
        Command::copy_selection().action == Action::Operation(Operation::CopySelection),
        Command::move_selection(down).action == Action::Operation(Operation::MoveSelection(down)),
        Command::undo().action == Action::Operation(Operation::Undo),
        Command::redo().action == Action::Operation(Operation::Redo),
        Command::delete_selection().number == 1 && Command::delete_selection().object is None,
        Command::duplicate_selection().number == 1 && Command::duplicate_selection().object is None,
        Command::cut_selection().number == 1 && Command::cut_selection().object is None,
        Command::paste().number == 1 && Command::paste().object is None,
        Command::copy_selection().number == 1 && Command::copy_selection().object is None,
        Command::move_selection(down).number == 1 && Command::move_selection(down).object is None,
        Command::undo().number == 1 && Command::undo().object is None,
        Command::redo().number == 1 && Command::redo().object is None,
        Command::movement(offset, kind).action == Action::Instruction(
            Instruction::SetMark(Mark::Cursor(0)),
        ),
        Command::movement(offset, kind).number == 1,
        Command::movement(offset, kind).object == Some(TextObject { kind: kind, offset: offset }),
{
}

} // verus!

verus! {

/// Puts a command together from numbers and partial commands, as a user types them.
pub struct Builder {
    number: Option<i32>,
    repeat: Option<usize>,
    action: Option<Action>,
    mark: Option<Mark>,
    kind: Option<Kind>,
    anchor: Option<Anchor>,
    offset: Option<Offset>,
    object: Option<TextObject>,
    reading_number: bool,
}

/// What a builder has gathered so far.
pub struct BuilderModel {
    pub number: Option<i32>,
    pub repeat: Option<usize>,
    pub action: Option<Action>,
    pub mark: Option<Mark>,
    pub kind: Option<Kind>,
    pub anchor: Option<Anchor>,
    pub offset: Option<Offset>,
    pub object: Option<TextObject>,
    pub reading_number: bool,
}

/// The outcome of feeding input to a builder.
#[derive(Copy, Clone, Debug)]
pub enum BuilderEvent {
    /// No valid interpretation can be found.
    Invalid,
    /// More information is needed.
    Incomplete,
    /// The command is finished.
    Complete(Command),
}

impl View for Builder {
    type V = BuilderModel;

    closed spec fn view(&self) -> BuilderModel {
        BuilderModel {
            number: self.number,
            repeat: self.repeat,
            action: self.action,
            mark: self.mark,
            kind: self.kind,
            anchor: self.anchor,
            offset: self.offset,
            object: self.object,
            reading_number: self.reading_number,
        }
    }
}

impl BuilderModel {
    /// A builder that holds nothing.
    pub open spec fn empty() -> BuilderModel {
        BuilderModel {
            number: None,
            repeat: None,
            action: None,
            mark: None,
            kind: None,
            anchor: None,
            offset: None,
            object: None,
            reading_number: false,
        }
    }

    /// The parts agree: an object is there exactly when a kind and an offset are,
    /// and it is made of them; an anchor, where there is one, is that of the kind.
    pub open spec fn consistent(self) -> bool {
        &&& (self.object is Some <==> (self.kind is Some && self.offset is Some))
        &&& (self.object matches Some(o) ==> self.kind == Some(o.kind) && self.offset == Some(
            o.offset,
        ))
        &&& (self.anchor matches Some(a) ==> (self.kind matches Some(k) ==> k.with_anchor(a) == k))
    }

    /// What every builder that `new`, `reset`, `append_digit` and `apply_partial`
    /// produce satisfies: its parts are consistent, an offset is there only with
    /// an object, and an object comes with an anchor.
    pub open spec fn well_formed(self) -> bool {
        &&& self.consistent()
        &&& (self.offset is Some ==> self.object is Some)
        &&& (self.object is Some ==> self.anchor is Some)
    }

    /// Records the part that `p` names. An action also turns a number that is
    /// not being read, with no repeat count yet, into the repeat count.
    pub open spec fn set_part(self, p: Partial) -> BuilderModel {
        match p {
            Partial::Kind(k) => BuilderModel { kind: Some(k), ..self },
            Partial::Anchor(a) => BuilderModel { anchor: Some(a), ..self },
            Partial::Object(o) => BuilderModel { object: Some(o), ..self },
            Partial::Action(a) => if !self.reading_number && self.number is Some
                && self.repeat is None {
                BuilderModel {
                    action: Some(a),
                    repeat: Some(self.number->0 as usize),
                    number: None,
                    ..self
                }
            } else {
                BuilderModel { action: Some(a), ..self }
            },
        }
    }

    /// Carries the parts upwards: the anchor into the kind, and the anchor,
    /// kind and offset into the object, where each of them is there.
    pub open spec fn propagate_up(self) -> BuilderModel {
        let kind = match self.kind {
            Some(k) => Some(
                match self.anchor {
                    Some(a) => k.with_anchor(a),
                    None => k,
                },
            ),
            None => None,
        };
        let object = match self.object {
            Some(o) => Some(
                TextObject {
                    kind: match kind {
                        Some(k) => k,
                        None => match self.anchor {
                            Some(a) => o.kind.with_anchor(a),
                            None => o.kind,
                        },
                    },
                    offset: match self.offset {
                        Some(f) => f,
                        None => o.offset,
                    },
                },
            ),
            None => None,
        };
        BuilderModel { kind, object, ..self }
    }

    /// Carries an object downwards into the parts that are not set, or, where
    /// there is no object, builds one from a kind and an offset.
    pub open spec fn propagate_down(self) -> BuilderModel {
        match self.object {
            Some(o) => BuilderModel {
                offset: Some(
                    match self.offset {
                        Some(f) => f,
                        None => o.offset,
                    },
                ),
                kind: Some(
                    match self.kind {
                        Some(k) => k,
                        None => o.kind,
                    },
                ),
                anchor: Some(
                    match self.anchor {
                        Some(a) => a,
                        None => o.kind.get_anchor(),
                    },
                ),
                ..self
            },
            None => match (self.kind, self.offset) {
                (Some(k), Some(f)) => BuilderModel {
                    object: Some(TextObject { kind: k, offset: f }),
                    ..self
                },
                _ => self,
            },
        }
    }

    /// Where an object of a kind lies when no offset was given: the one at the
    /// cursor for an operation, the next one after the cursor where there is no
    /// action; counted from the start of the buffer where a number is given, and
    /// for an instruction.
    pub open spec fn default_offset(self) -> Offset {
        match self.number {
            Some(_) => Offset::Absolute(0),
            None => match self.action {
                Some(Action::Operation(_)) => Offset::Forward(0, Mark::Cursor(0)),
                Some(Action::Instruction(_)) => Offset::Absolute(0),
                None => Offset::Forward(1, Mark::Cursor(0)),
            },
        }
    }

    /// The object that a command made now would act on: the object, or else one
    /// of the kind at the offset (at the default offset where there is none),
    /// with the number, where there is one, as its count.
    pub open spec fn completed_object(self) -> Option<TextObject> {
        let base = match self.object {
            Some(o) => Some(o),
            None => match self.kind {
                Some(k) => Some(
                    TextObject {
                        kind: k,
                        offset: match self.offset {
                            Some(f) => f,
                            None => self.default_offset(),
                        },
                    },
                ),
                None => None,
            },
        };
        match (base, self.number) {
            (Some(o), Some(n)) => Some(TextObject { kind: o.kind, offset: o.offset.with_num(n as usize) }),
            _ => base,
        }
    }

    /// The repeat count that a command made now would carry: 1 where none was given.
    pub open spec fn command_number(self) -> i32 {
        (match self.repeat {
            Some(r) => r,
            None => 1usize,
        }) as i32
    }

    /// The command that the builder can make now, if any: an instruction goes
    /// out with whatever object there is; an operation needs an object; an
    /// object alone moves the cursor to it.
    pub open spec fn completed_command(self) -> Option<Command> {
        match self.action {
            Some(Action::Instruction(i)) => Some(
                Command {
                    number: self.command_number(),
                    action: Action::Instruction(i),
                    object: self.completed_object(),
                },
            ),
            _ => match self.completed_object() {
                Some(to) => match self.action {
                    Some(Action::Operation(o)) => Some(
                        Command {
                            number: self.command_number(),
                            action: Action::Operation(o),
                            object: Some(to),
                        },
                    ),
                    _ => Some(
                        Command {
                            number: self.command_number(),
                            action: Action::Instruction(Instruction::SetMark(Mark::Cursor(0))),
                            object: Some(to),
                        },
                    ),
                },
                None => None,
            },
        }
    }

    /// The number after the digit `n` is appended to it.
    pub open spec fn number_after_digit(self, n: i32) -> i32 {
        match self.number {
            Some(c) => (c * 10 + n) as i32,
            None => n,
        }
    }

    /// The builder after a partial command is applied to it.
    pub open spec fn apply(self, p: Partial) -> BuilderModel {
        self.set_part(p).propagate_up().propagate_down()
    }
}

/// Whatever a builder held, it is consistent once a partial command is applied.
pub proof fn lemma_apply_consistent(m: BuilderModel, p: Partial)
    ensures
        m.apply(p).consistent(),
{
    let s = m.set_part(p);
    let u = s.propagate_up();
    if let Some(a) = u.anchor {
        if let Some(k) = u.kind {
            crate::textobject::lemma_with_anchor_last_wins(s.kind->0, a, a);
        }
        if let Some(o) = u.object {
            if s.kind is None {
                crate::textobject::lemma_with_anchor_last_wins(s.object->0.kind, a, a);
            }
        }
    } else {
        if let Some(o) = u.object {
            crate::textobject::lemma_with_own_anchor(o.kind);
        }
    }
}

/// An object and an anchor, applied in either order to a builder that holds no
/// kind, offset or object, give exactly that object, only with that anchor.
pub proof fn lemma_object_takes_anchor(m: BuilderModel, o: TextObject, b: Anchor)
    requires
        m.kind is None,
        m.offset is None,
        m.object is None,
    ensures
        m.apply(Partial::Object(o)).apply(Partial::Anchor(b)).object == Some(
            TextObject { kind: o.kind.with_anchor(b), offset: o.offset },
        ),
        m.apply(Partial::Anchor(b)).apply(Partial::Object(o)).object == Some(
            TextObject { kind: o.kind.with_anchor(b), offset: o.offset },
        ),
{
    if let Some(a) = m.anchor {
        crate::textobject::lemma_with_anchor_last_wins(o.kind, a, b);
    }
    crate::textobject::lemma_with_anchor_last_wins(o.kind, b, b);
}

/// The first number followed by an action is treated as a repetition: it
/// becomes the repeat count, and the command made afterwards carries it.
pub proof fn lemma_first_number_is_repeat(m: BuilderModel, n: i32, a: Action)
    requires
        m.number == Some(n),
        m.repeat is None,
        !m.reading_number,
        0 <= n,
    ensures
        m.apply(Partial::Action(a)).repeat == Some(n as usize),
        m.apply(Partial::Action(a)).number is None,
        m.apply(Partial::Action(a)).action == Some(a),
        m.apply(Partial::Action(a)).completed_command() matches Some(c) ==> c.number == n,
{
}

/// The rules by which a builder completes a command.
pub proof fn lemma_completion_rules(m: BuilderModel)
    ensures
        // an instruction is sent with whatever parameters are available
        m.action matches Some(Action::Instruction(i)) ==> m.completed_command() == Some(
            Command {
                number: m.command_number(),
                action: Action::Instruction(i),
                object: m.completed_object(),
            },
        ),
        // without an object or a kind, nothing but an instruction is complete
        (m.object is None && m.kind is None && !(m.action matches Some(Action::Instruction(_))))
            ==> m.completed_command() is None,
        // an operation is applied to the object that is complete
        m.action matches Some(Action::Operation(op)) ==> (m.completed_object() matches Some(to)
            ==> m.completed_command() == Some(
            Command { number: m.command_number(), action: Action::Operation(op), object: Some(to) },
        )),
        // an operation with a kind alone is applied to the object of that kind at the cursor
        m.action matches Some(Action::Operation(op)) ==> (m.kind matches Some(k) ==> (m.object
            is None && m.offset is None && m.number is None ==> m.completed_command() == Some(
            Command {
                number: m.command_number(),
                action: Action::Operation(op),
                object: Some(TextObject { kind: k, offset: Offset::Forward(0, Mark::Cursor(0)) }),
            },
        ))),
        // with no action, the cursor moves to the object
        m.action is None ==> (m.completed_object() matches Some(to) ==> m.completed_command()
            == Some(
            Command {
                number: m.command_number(),
                action: Action::Instruction(Instruction::SetMark(Mark::Cursor(0))),
                object: Some(to),
            },
        )),
        // a kind alone moves the cursor to the next object of that kind
        m.action is None ==> (m.kind matches Some(k) ==> (m.object is None && m.offset is None
            && m.number is None ==> m.completed_command() == Some(
            Command {
                number: m.command_number(),
                action: Action::Instruction(Instruction::SetMark(Mark::Cursor(0))),
                object: Some(TextObject { kind: k, offset: Offset::Forward(1, Mark::Cursor(0)) }),
            },
        ))),
        // a number with a kind and nothing else picks the n-th object of that kind
        m.number matches Some(n) ==> (m.kind matches Some(k) ==> (m.object is None
            && m.offset is None ==> m.completed_object() == Some(
            TextObject { kind: k, offset: Offset::Absolute(n as usize) },
        ))),
        // without a repeat count a command is done once
        m.repeat is None ==> m.command_number() == 1,
{
}

/// What each partial command does to a well-formed builder. A kind takes the
/// builder's anchor and becomes the kind of its object; an anchor goes into the
/// kind and the object; an object takes the builder's kind, anchor and offset
/// where they are set, and gives them where they are not; an action changes
/// none of the kind, anchor, offset and object. Nothing but an action touches
/// the number, the repeat count or the action, and nothing touches the mark.
pub proof fn lemma_apply_effects(m: BuilderModel, p: Partial)
    requires
        m.well_formed(),
    ensures
        p matches Partial::Kind(k) ==> {
            let k2 = match m.anchor {
                Some(a) => k.with_anchor(a),
                None => k,
            };
            &&& m.apply(p).kind == Some(k2)
            &&& m.apply(p).offset == m.offset
            &&& m.apply(p).anchor == m.anchor
            &&& m.apply(p).object == match m.object {
                Some(o) => Some(TextObject { kind: k2, offset: o.offset }),
                None => None,
            }
        },
        p matches Partial::Anchor(a) ==> {
            &&& m.apply(p).anchor == Some(a)
            &&& m.apply(p).kind == match m.kind {
                Some(k) => Some(k.with_anchor(a)),
                None => None,
            }
            &&& m.apply(p).offset == m.offset
            &&& m.apply(p).object == match m.object {
                Some(o) => Some(TextObject { kind: o.kind.with_anchor(a), offset: o.offset }),
                None => None,
            }
        },
        p matches Partial::Object(o) ==> {
            let k = match m.kind {
                Some(k) => k,
                None => match m.anchor {
                    Some(a) => o.kind.with_anchor(a),
                    None => o.kind,
                },
            };
            let f = match m.offset {
                Some(f) => f,
                None => o.offset,
            };
            &&& m.apply(p).object == Some(TextObject { kind: k, offset: f })
            &&& m.apply(p).kind == Some(k)
            &&& m.apply(p).offset == Some(f)
            &&& m.apply(p).anchor == Some(
                match m.anchor {
                    Some(a) => a,
                    None => k.get_anchor(),
                },
            )
        },
        p matches Partial::Action(a) ==> {
            &&& m.apply(p).action == Some(a)
            &&& if !m.reading_number && m.number is Some && m.repeat is None {
                &&& m.apply(p).repeat == Some(m.number->0 as usize)
                &&& m.apply(p).number is None
            } else {
                &&& m.apply(p).repeat == m.repeat
                &&& m.apply(p).number == m.number
            }
            &&& m.apply(p).kind == m.kind
            &&& m.apply(p).anchor == m.anchor
            &&& m.apply(p).offset == m.offset
            &&& m.apply(p).object == m.object
        },
        !(p is Action) ==> {
            &&& m.apply(p).number == m.number
            &&& m.apply(p).repeat == m.repeat
            &&& m.apply(p).action == m.action
        },
        m.apply(p).mark == m.mark,
        m.apply(p).reading_number == m.reading_number,
{
    if let Some(k) = m.kind {
        if let Some(a) = m.anchor {
            crate::textobject::lemma_with_anchor_last_wins(k, a, a);
        }
    }
}

/// What a typed number does to the object a command acts on: it becomes the
/// count of the object's offset, whose kind, direction and mark stay; without a
/// number the object is taken as it is. A kind without an object or an offset
/// counts from the start of the buffer where a number is given or an instruction
/// waits; otherwise an operation acts on the object at the cursor, and a kind
/// alone goes to the next object after the cursor.
pub proof fn lemma_number_counts_the_object(m: BuilderModel)
    ensures
        m.object matches Some(o) ==> (m.completed_object() matches Some(c) && c.kind == o.kind
            && c.offset.origin() == o.offset.origin() && (c.offset is Absolute
            <==> o.offset is Absolute) && (c.offset is Backward <==> o.offset is Backward) && (
        c.offset is Forward <==> o.offset is Forward) && c.offset.count() == match m.number {
            Some(n) => n as usize,
            None => o.offset.count(),
        }),
        m.number matches Some(n) ==> (m.completed_object() matches Some(c) ==> c.offset.count()
            == n as usize),
        m.number is None ==> (m.object matches Some(o) ==> m.completed_object() == Some(o)),
        m.object is None ==> (m.completed_object() is Some <==> m.kind is Some),
        m.object is None ==> (m.kind matches Some(k) ==> (m.offset matches Some(f) ==> (
        m.completed_object() matches Some(c) && c.kind == k && c.offset.origin() == f.origin()
            && (c.offset is Absolute <==> f is Absolute) && (c.offset is Backward
            <==> f is Backward) && c.offset.count() == match m.number {
            Some(n) => n as usize,
            None => f.count(),
        }))),
        m.object is None && m.offset is None ==> (m.kind matches Some(k) ==> m.completed_object()
            == Some(
            TextObject {
                kind: k,
                offset: match m.number {
                    Some(n) => Offset::Absolute(n as usize),
                    None => match m.action {
                        Some(Action::Operation(_)) => Offset::Forward(0, Mark::Cursor(0)),
                        Some(Action::Instruction(_)) => Offset::Absolute(0),
                        None => Offset::Forward(1, Mark::Cursor(0)),
                    },
                },
            },
        )),
{
    if let Some(o) = m.object {
        if let Some(n) = m.number {
            crate::textobject::lemma_count_laws(o.offset, n as usize);
        }
    }
    if let Some(f) = m.offset {
        if let Some(n) = m.number {
            crate::textobject::lemma_count_laws(f, n as usize);
        }
    }
    if let Some(n) = m.number {
        if let Some(c) = m.completed_object() {
            let base = match m.object {
                Some(o) => o.offset,
                None => match m.offset {
                    Some(f) => f,
                    None => m.default_offset(),
                },
            };
            crate::textobject::lemma_count_laws(base, n as usize);
        }
    }
}

/// Appending a digit to a number multiplies it by ten and adds the digit; the
/// first digit is the number.
pub proof fn lemma_digits_are_decimal(m: BuilderModel, n: i32)
    ensures
        m.number matches Some(c) ==> (i32::MIN <= c * 10 + n <= i32::MAX ==> m.number_after_digit(n)
            == c * 10 + n),
        m.number is None ==> m.number_after_digit(n) == n,
{
}

/// A repeat count that fits in the command's number is carried as it is; with
/// none the command is done once.
pub proof fn lemma_repeat_count(m: BuilderModel)
    ensures
        m.repeat matches Some(r) ==> (r <= i32::MAX ==> m.command_number() == r),
        m.repeat is None ==> m.command_number() == 1,
        m.completed_command() matches Some(c) ==> c.number == m.command_number(),
{
}

/// A fresh builder completes nothing, is well-formed, and a first number typed
/// into it and followed by an action becomes the repeat count.
pub proof fn lemma_fresh_builder(n: i32, a: Action)
    requires
        0 <= n,
    ensures
        BuilderModel::empty().completed_command() is None,
        BuilderModel::empty().completed_object() is None,
        BuilderModel::empty().well_formed(),
        (BuilderModel { number: Some(BuilderModel::empty().number_after_digit(n)), ..BuilderModel::empty() }).apply(
            Partial::Action(a),
        ).repeat == Some(n as usize),
{
}

/// Applying a partial command keeps a well-formed builder well-formed.
pub proof fn lemma_apply_well_formed(m: BuilderModel, p: Partial)
    requires
        m.well_formed(),
    ensures
        m.apply(p).well_formed(),
{
    lemma_apply_consistent(m, p);
}

/// Applying the same partial command twice to a well-formed builder is the same
/// as applying it once.
pub proof fn lemma_apply_twice(m: BuilderModel, p: Partial)
    requires
        m.well_formed(),
    ensures
        m.apply(p).apply(p) == m.apply(p),
{
    lemma_apply_well_formed(m, p);
    let m1 = m.apply(p);
    if let Some(k) = m1.kind {
        crate::textobject::lemma_with_own_anchor(k);
    }
}

impl Builder {
    /// A builder that holds nothing.
    pub fn new() -> (b: Builder)
        ensures
            b@ == BuilderModel::empty(),
            b@.consistent(),
            b@.well_formed(),
    {
        Builder {
            number: None,
            repeat: None,
            action: None,
            mark: None,
            kind: None,
            anchor: None,
            offset: None,
            object: None,
            reading_number: false,
        }
    }

    /// Forgets everything the builder has gathered.
    pub fn reset(&mut self)
        ensures
            final(self)@ == BuilderModel::empty(),
            final(self)@.consistent(),
            final(self)@.well_formed(),
    {
        self.number = None;
        self.repeat = None;
        self.action = None;
        self.mark = None;
        self.kind = None;
        self.anchor = None;
        self.object = None;
        self.offset = None;
        self.reading_number = false;
    }

    /// The object that a command made now would act on.
    pub fn complete_object(&mut self) -> (r: Option<TextObject>)
        ensures
            final(self)@ == old(self)@,
            r == old(self)@.completed_object(),
    {
        let result: Option<TextObject> = if let Some(object) = self.object {
            // we have a complete object ready to go
            Some(object)
        } else if let Some(kind) = self.kind {
            // we have at least a kind
            Some(
                TextObject {
                    kind: kind,
                    offset: match self.offset {
                        Some(offset) => offset,
                        // a number counts from the start of the buffer
                        None => match self.number {
                            Some(_) => Offset::Absolute(0),
                            None => match self.action {
                                // an operation acts on the object at the cursor
                                Some(Action::Operation(_)) => Offset::Forward(0, Mark::Cursor(0)),
                                // an instruction takes the object as it stands
                                Some(Action::Instruction(_)) => Offset::Absolute(0),
                                // a bare kind moves to the next object
                                None => Offset::Forward(1, Mark::Cursor(0)),
                            },
                        },
                    },
                },
            )
        } else {
            None
        };

        match result {
            Some(object) => match self.number {
                Some(number) => Some(
                    TextObject { kind: object.kind, offset: object.offset.with_num(number as usize) },
                ),
                None => result,
            },
            None => result,
        }
    }

    /// The command that the builder can make now, if any.
    pub fn complete_command(&mut self) -> (r: Option<Command>)
        ensures
            final(self)@ == old(self)@,
            r == old(self)@.completed_command(),
    {
        let number = match self.repeat {
            Some(repeat) => repeat,
            None => 1,
        } as i32;

        // editor instructions may not need a text object, go ahead and return immediately
        if let Some(Action::Instruction(i)) = self.action {
            return Some(
                Command { number: number, action: Action::Instruction(i), object: self.complete_object() },
            );
        }
        if let Some(to) = self.complete_object() {
            if let Some(Action::Operation(o)) = self.action {
                // we have an object, and an operation
                return Some(Command { number: number, action: Action::Operation(o), object: Some(to) });
            } else {
                // we have just an object, assume move cursor instruction
                return Some(
                    Command {
                        number: number,
                        action: Action::Instruction(Instruction::SetMark(Mark::Cursor(0))),
                        object: Some(to),
                    },
                );
            }
        }
        None
    }

    /// Appends the digit `n` to the number being gathered.
    pub fn append_digit(&mut self, n: i32)
        requires
            old(self)@.number matches Some(c) ==> i32::MIN <= c * 10 <= i32::MAX && i32::MIN <= c
                * 10 + n <= i32::MAX,
        ensures
            final(self)@ == (BuilderModel { number: Some(old(self)@.number_after_digit(n)), ..old(self)@ }),
            old(self)@.number matches Some(c) ==> final(self)@.number matches Some(v) && v == c * 10
                + n,
            old(self)@.number is None ==> final(self)@.number == Some(n),
            old(self)@.consistent() ==> final(self)@.consistent(),
            old(self)@.well_formed() ==> final(self)@.well_formed(),
    {
        if let Some(current) = self.number {
            self.number = Some((current * 10) + n);
        } else {
            self.number = Some(n);
        }
    }

    /// Applies a partial command, and carries its parts up and down so that they agree.
    pub fn apply_partial(&mut self, partial: Partial)
        ensures
            final(self)@ == old(self)@.apply(partial),
            final(self)@.consistent(),
            old(self)@.well_formed() ==> final(self)@.well_formed(),
    {
        match partial {
            Partial::Kind(k) => self.kind = Some(k),
            Partial::Anchor(a) => self.anchor = Some(a),
            Partial::Object(o) => self.object = Some(o),
            Partial::Action(a) => {
                self.action = Some(a);
                if !self.reading_number && self.number.is_some() && self.repeat.is_none() {
                    // the first number followed by an action is treated as a repetition
                    self.repeat = Some(self.number.unwrap() as usize);
                    self.number = None;
                }
            },
        }
        let ghost after_set = self@;
        assert(after_set == old(self)@.set_part(partial));

        // propagate upwards from anchor to object
        // if both an object(a) and an anchor(b) have been applied, the resulting
        // object should be exactly the same as (a), only using (b) as the anchor
        if let Some(anchor) = self.anchor {
            if let Some(kind) = self.kind {
                self.kind = Some(kind.with_anchor(anchor));
            }
            if let Some(object) = self.object {
                self.object = Some(
                    TextObject { kind: object.kind.with_anchor(anchor), offset: object.offset },
                );
            }
        }
        if let Some(kind) = self.kind {
            if let Some(object) = self.object {
                self.object = Some(TextObject { kind: kind, offset: object.offset });
            }
        }
        if let Some(offset) = self.offset {
            if let Some(object) = self.object {
                self.object = Some(TextObject { kind: object.kind, offset: offset });
            }
        }

        let ghost after_up = self@;
        assert(after_up == after_set.propagate_up());

        // propagate downwards from object to unset partials
        if let Some(object) = self.object {
            if self.offset.is_none() {
                self.offset = Some(object.offset);
            }
            if self.kind.is_none() {
                self.kind = Some(object.kind);
            }
            if self.anchor.is_none() {
                self.anchor = Some(object.kind.get_anchor());
            }
        }

        if self.offset.is_some() && self.kind.is_some() && self.object.is_none() {
            self.object = Some(TextObject { kind: self.kind.unwrap(), offset: self.offset.unwrap() });
        }
        proof {
            lemma_apply_consistent(old(self)@, partial);
            if old(self)@.well_formed() {
                lemma_apply_well_formed(old(self)@, partial);
            }
        }
    }
}

} // verus!
