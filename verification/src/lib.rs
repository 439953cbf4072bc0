//! A small interactive-command bot library: the decision logic of a
//! gateway-event dispatch loop, the validation of command options, the
//! static catalog of selection-menu widgets, and the construction of every
//! interaction reply, all with verified contracts. The surrounding process
//! (the streaming connection and the HTTP calls) lives outside the library
//! and consumes plain values produced here.

pub mod catalog;
pub mod dispatch;
pub mod event;
pub mod handler;
pub mod options;
pub mod reply;
pub mod text;
