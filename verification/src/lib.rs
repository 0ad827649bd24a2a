//! Key bindings and the command language of a small terminal text editor.

pub mod bindings;
pub mod buffer;
pub mod command;
pub mod key;
pub mod overlay;
pub mod textobject;
