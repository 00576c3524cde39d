//! Guardrails around sandboxed execution: what bounds a session, what ends a
//! worker, what protects a saved state, and what a host sees of it all.
//!
//! - [`limits`], [`tracker`], [`sizes`] and [`resource`] bound what sandboxed
//!   code may use, and say what exceeding a bound is raised as.
//! - [`ceiling`] and [`address_space`] bound the worker process around it.
//! - [`dump_sign`] signs saved sessions and verifies them before they are
//!   loaded.
//! - [`protocol`] is the conversation between a pool and a worker, and
//!   [`frames`] the framed replies of an embedded one.
//! - [`metrics`], [`instruments`] and [`turn_metrics`] measure that
//!   conversation; [`telemetry`], [`span_records`], [`record`] and [`render`]
//!   trace it.
//! - [`exercise`] drives a training run, and [`text`] and [`time`] are what the
//!   other modules build on.
//!
//! Every function states what it returns or changes, and functions named
//! `law_*` state what holds across several of them. Laws on a whole exchange, on
//! a whole session or on every record at once are in [`metric_laws`],
//! [`trace_laws`], [`tracker_laws`], [`record_laws`] and [`render_laws`].

pub mod address_space;
pub mod ceiling;
pub mod dump_sign;
pub mod exercise;
pub mod frames;
pub mod instruments;
pub mod limits;
pub mod metric_laws;
pub mod metrics;
pub mod protocol;
pub mod record;
pub mod record_laws;
pub mod render;
pub mod render_laws;
pub mod resource;
pub mod sizes;
pub mod span_records;
pub mod telemetry;
pub mod text;
pub mod time;
pub mod trace_laws;
pub mod tracker;
pub mod tracker_laws;
pub mod turn_metrics;
