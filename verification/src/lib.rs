//! Handler of the outbound notifications substream of one connection.
//!
//! For each connection and notifications protocol, a [`NotifsOutHandler`]
//! keeps track of one outbound, one-directional substream. It decides when the
//! substream is opened, kept open, closed and reopened, from the commands of
//! the overlay controller ([`NotifsOutHandlerIn`]) and from what the
//! negotiation layer and the substream report.
//!
//! The handler performs no I/O. Whoever drives it negotiates substreams,
//! flushes and closes them, and tells the handler how that went; the handler
//! answers with the events to deliver ([`HandlerEvent`]) and with what is to
//! be done next. Every transition is stated over the mathematical view of the
//! handler, [`HandlerModel`], and proved.

pub mod clock;
pub mod event;
pub mod handler;
pub mod laws;
pub mod model;
pub mod peer;
pub mod queue;
pub mod state;

pub use event::{
    CommandEffect, DialUpgradeError, HandlerEvent, HandlerEventView, KeepAlive, Misuse,
    NotifsOutHandlerIn, NotifsOutHandlerOut, NotifsOutHandlerOutView, SubstreamIo,
    SubstreamOutcome,
};
pub use handler::{NotifsOutHandler, NotifsOutHandlerProto};
pub use model::{HandlerModel, Input, INITIAL_KEEPALIVE_SECS, OPEN_TIMEOUT_SECS};
pub use state::{State, StateKind};
