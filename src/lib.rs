//! The core of a binary file editor: a byte buffer edited through reversible
//! changes with undo and redo, a cursor and a selection over it, the key
//! handling that turns key presses into edits, and the colour and character
//! settings used to show bytes.
pub mod byte;
pub mod change;
pub mod config;
pub mod events;
pub mod grid;
pub mod history;
pub mod model;
pub mod state;

pub use byte::{Byte, ByteType};
pub use change::Change;
pub use config::{Charset, ColorScheme, Config, ConfigError, ConfigValue, FieldError, find_field};
pub use events::{Action, Key, KeyPress, Modifiers};
pub use grid::{Cell, CellKind, GridRow};
pub use model::{AppState, NibbleInput};
pub use state::{App, Args};
