//! A small SSH tarpit: it accepts TCP connections, absorbs the client's
//! banner and then drips random, banner-like lines at a slow pace.
//!
//! This crate holds the verified core: the line generator, the admission
//! discipline around the live-connection count, the per-connection state
//! machine and the shutdown drain decision. Sockets, timers and signals are
//! driven by the program around it.
pub mod admission;
pub mod config;
pub mod handler;
pub mod line;
pub mod random;
pub mod shutdown;
