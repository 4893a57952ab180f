//! The session engine of a browser terminal: colour resolution, frame
//! construction, the wire messages and their routing, frame throttling and
//! fan-out decisions, the session registry, the rules of startup and of
//! access, and the client's grid, input and drawing plan.

pub mod auth;
pub mod client;
pub mod color;
pub mod emitter;
pub mod fanout;
pub mod font;
pub mod frame;
pub mod input;
pub mod protocol;
pub mod pty;
pub mod registry;
pub mod render;
pub mod screen;
pub mod session;
pub mod startup;
pub mod terminal;
pub mod text;
pub mod throttle;

pub use frame::{Cell, TerminalFrame};
pub use input::InputHandler;
pub use screen::Cursor;
pub use terminal::Terminal;
