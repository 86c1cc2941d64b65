//! Supervision of an OpenVPN3 session: reading the client's textual output,
//! tracking the connection's life cycle and turning cumulative byte counters
//! into a bounded history of per-interval rates.

pub mod app;
pub mod clock;
pub mod models;
pub mod recent;
pub mod report;
pub mod session;
pub mod status;
pub mod telemetry;
pub mod text;
pub mod tray;
pub mod ui;
pub mod vpn;
