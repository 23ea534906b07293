//! A minimal render-graph execution engine.
//!
//! A frame of GPU work is declared as a set of nodes, each reading and
//! writing logical resources.  A [`builder::GraphBuilder`] validates the
//! declarations, resolves producer/consumer dependencies and produces an
//! immutable [`graph::Graph`], which is then run once per frame tick: it
//! decides per node whether commands are re-recorded or reused, and lays
//! out the submissions with the wait/signal edges the dependencies demand.
//! The GPU itself (device, queues, window surface) stays outside: the
//! engine works on plain values and reports exactly what a frame did.

pub mod builder;
pub mod clear;
pub mod fixed;
pub mod frame_loop;
pub mod graph;
pub mod group;
pub mod resource;
