//! An interactive, terminal-rendered, two-level multi-selection widget.
//!
//! A widget holds a list of labeled groups, each with zero or more selectable
//! items.  A cursor walks the groups and their items as one flat sequence
//! (one header row per group followed by its item rows), skipping disabled
//! items; toggles act on single items or, through a group's header, on every
//! enabled item of the group at once.  A pager keeps the cursor inside the
//! visible window of a bounded terminal.
//!
//! This crate contains the selection and navigation state machine only.
//! Reading keys from a terminal and drawing rows belong to the caller: the
//! widget hands out plain data ([`RenderRow`], [`StepAction`]) and the caller
//! feeds back classified key events ([`KeyEvent`]).

pub mod model;
pub mod widget;
pub mod session;
pub mod laws;

pub use model::Cursor;
pub use model::Group;
pub use model::GroupState;
pub use model::ItemState;
pub use model::KeyEvent;
pub use widget::GroupMultiSelect;
pub use session::RenderFrame;
pub use session::RenderRow;
pub use session::SessionStart;
pub use session::SessionState;
pub use session::StepAction;
