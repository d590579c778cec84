//! A line-oriented request/response service: the framing of each
//! connection's bytes into lines, and the decisions of the session handler,
//! the accept loop and the companion driver, each a state machine proved to
//! follow its model.
pub mod driver;
pub mod framing;
pub mod listener;
pub mod session;
