//! A debug-overlay UI toolkit for a real-time simulation viewer.
//!
//! Draggable panels hold composable widgets (static text, buttons, toggles,
//! text fields, numeric fields) that are bound live, two-way, to fields of
//! simulation entities so live state can be inspected and edited in place.
//!
//! The toolkit itself is pure: each frame it consumes a plain input snapshot
//! ([`input::FrameInput`]) and produces a list of drawing commands
//! ([`draw::DrawCmd`]) while stepping its own widget state.  The host loop
//! polls the real input device, hands the snapshot in, and executes the
//! command list against its rendering backend.  Numeric fields hold
//! fixed-point decimal values ([`num::Num`]); the host converts to whatever
//! number type its simulation uses.

pub mod app_ui;
pub mod button;
pub mod constraint_guis;
pub mod draw;
pub mod geom;
pub mod idgen;
pub mod input;
pub mod model;
pub mod num;
pub mod number_text;
pub mod panel;
pub mod rigidbody_gui;
pub mod strutil;
pub mod text;
pub mod timer;
pub mod toggle;
pub mod text_input;

pub use app_ui::{AppUI, BodyPanelEntry, ConstraintPanelEntry, UIPlaceBodyType};
pub use button::{ButtonOrToggle, ClickElement};
pub use constraint_guis::{ConstraintDebugGui, ConstraintGuiType};
pub use draw::{DrawCmd, TextTexure};
pub use geom::Rect;
pub use input::FrameInput;
pub use model::{Body, BodyShape, Constraint, World};
pub use num::Num;
pub use number_text::NumberTextInput;
pub use panel::{mouse_over_panel, Panel};
pub use rigidbody_gui::RigidBodyDebugGui;
pub use text::Text;
pub use text_input::TextInput;
pub use timer::TimerUtil;
pub use toggle::ToggleGroup;
