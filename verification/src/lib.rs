//! Core of a free-running frame renderer: a producer loop that synthesizes
//! complete frames and hands them to a presentation consumer without either
//! side ever blocking the other.
//!
//! The pieces are
//! - a coalescing, single-slot camera channel ("latest value wins") that
//!   carries view transforms from an interactive layer to the producer,
//! - a bounded frame channel with drop-on-backpressure publish and
//!   non-blocking poll (oldest frames preserved, newest dropped when full),
//! - the producer's render context and its per-iteration step, which reads
//!   the latest camera value, snapshots the shared settings, repaints a
//!   reusable pixel buffer and tries to publish the result.
//!
//! Color components travel as opaque 32-bit encodings that the pipeline
//! copies verbatim and never interprets numerically; this is what makes
//! bit-exact delivery of a frame a provable property.

pub mod camera;
pub mod camera_channel;
pub mod color;
pub mod frame;
pub mod frame_channel;
pub mod render;
pub mod settings;
