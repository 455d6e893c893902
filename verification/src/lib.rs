//! Decision logic of a guest-side code-execution agent.
//!
//! The agent receives one request per connection, stages the submitted source,
//! runs the matching toolchain and answers with a structured result. This
//! library holds every decision of that exchange as verified functions over
//! plain values; the caller performs the socket, file and process operations.

pub mod dispatch;
pub mod exchange;
pub mod frame;
pub mod json;
pub mod listener;
pub mod message;
pub mod text;
pub mod unicode;
