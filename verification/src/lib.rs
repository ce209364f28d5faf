//! Snapshot-refresh and metrics-publication engine for backup repositories.
//!
//! Each monitored repository has one [`collector::RusticCollector`]: a small
//! state machine that decides when to connect, when to refresh the list of
//! snapshots and what to publish, while the surrounding program performs the
//! storage work and the waiting. The published state is mapped to labelled
//! gauge observations by [`metrics`], and grouped into metric families for a
//! scrape by [`exposition`].
//!
//! The other modules hold what these three work on: [`config`] the
//! description of a target, [`model`] snapshots and the published state,
//! [`cell`] the holder of that state, [`time`] instants and spans, and
//! [`text`] the rendering of label values.

pub mod cell;
pub mod collector;
pub mod config;
pub mod exposition;
pub mod metrics;
pub mod model;
pub mod text;
pub mod time;
