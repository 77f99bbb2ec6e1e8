//! Semantic layer of an ANSI/VT terminal stream parser.
//!
//! A byte classifier (the `vte` crate) turns the output of a pseudo-terminal
//! into print / execute / CSI / ESC / OSC events. This crate interprets those
//! events: it decodes parameters, SGR attributes, OSC payloads and mode
//! numbers, and turns each event into the list of terminal [`Action`]s that a
//! handler should perform, in order.
pub mod action;
pub mod attr;
pub mod c0;
pub mod c1;
pub mod color;
pub mod dispatch;
pub mod event;
pub mod mode;
pub mod osc;
pub mod processor;
pub mod text;

pub use action::{Action, ActionView};
pub use attr::{attrs_from_sgr_parameters, parse_color, Attr};
pub use color::{parse_number, parse_rgb_color, Color, NamedColor, Rgb};
pub use dispatch::ProcessorState;
pub use event::Event;
pub use processor::Processor;
pub use mode::{
    CharsetIndex, ClearMode, CursorStyle, LineClearMode, Mode, StandardCharset,
    TabulationClearMode,
};
