//! Navigation state and layout rules of a two-pane terminal browser for storage
//! resources: pane cursors and scrolling, key dispatch, the modal dialogs and
//! what each frame shows. Reading keys, drawing and talking to the resource
//! provider are left to the caller.

pub mod action;
pub mod content;
pub mod dialog;
pub mod frame;
pub mod keys;
pub mod menu;
pub mod screen;
pub mod text;

pub use crate::action::{Action, ActionRequest, ProviderCall};
pub use crate::content::{Content, ContentType, ResourceItem, Row};
pub use crate::dialog::{Cancelled, ConfirmDialog, InputDialog};
pub use crate::frame::Frame;
pub use crate::keys::Key;
pub use crate::screen::{Dispatch, Drawing, PaneDrawing, Screen};
