//! State machine, control layouts and input handling for an interactive page
//! viewer attached to a chat-bot command response.
pub mod cancellation_type;
pub mod controller;
pub mod event;
pub mod text;
pub mod view;

pub use cancellation_type::CancellationType;
pub use controller::{Action, ConfigError, Frame, Notice, Reply, Session, SessionModel, SessionState};
pub use event::{Event, Nav};
pub use text::{decimal_string, missing_page_text, parse_page_number, PageInputError};
pub use view::{Control, ControlKind, DefaultView, MinimalView, Press};
