//! Verified core of a small data-collection agent: the rules that decide how a
//! sampled measurement is located in its source, how a delivery attempt is
//! classified, when a failed delivery is retried, and when the polling loop
//! stops; and, around them, the rules by which a configuration is accepted
//! and an update is judged due.
//!
//! Nothing here touches a file, a socket or a clock. Whoever drives the
//! library reads and sends, and hands over what came back.

pub mod config;
pub mod error;
pub mod http;
pub mod scheduler;
pub mod sources;
pub mod text;
pub mod transport;
pub mod update;
