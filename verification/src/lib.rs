//! Runtime core of a terminal dashboard for a proxy daemon: display widgets
//! with cached projections, a rate-of-change engine for connection snapshots,
//! the page state machine, the event dispatcher and the reconnecting stream
//! worker, each with a machine-checked contract.

pub mod text;
pub mod page;
pub mod clash_api;
pub mod my_event;
pub mod app;
pub mod dispatcher;
pub mod app_config;
pub mod clash_config;
pub mod substask;
