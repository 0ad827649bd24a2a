# iota

Key bindings and the command language of a light-weight terminal text editor,
verified with Verus.

- `src/key.rs`, `src/buffer.rs`, `src/textobject.rs`, `src/overlay.rs`: keys,
  marks, text objects (a kind of object at an offset) and overlays.
- `src/command.rs`: instructions, operations, commands and their shortcuts, and
  `Builder`, which puts a command together from numbers and partial commands.
  Its contracts speak of `BuilderModel`, the values a builder holds.
- `src/bindings.rs`: which command each key is bound to.
- `app/main.rs`: the terminal front end.
- `tests/`: tests of the bindings, the shortcuts and the builder.
