//! Normalization and dispatch of a host's unified pointer-event stream.
//!
//! A host platform multiplexes mouse and touch input through a single raw
//! pointer-event channel. This library classifies each raw event by device
//! kind, extracts device-appropriate attributes (modifiers, buttons, position,
//! motion delta, pressure), expands coalesced motion batches, converts logical
//! coordinates to physical ones, and decides which registered handler fires
//! with which normalized payload. The host plumbing itself (attaching to the
//! raw channel, running caller closures, requesting pointer capture) lives
//! outside: the library's dispatch functions return the invocations to make
//! as data.

pub mod device;
pub mod dispatch;
pub mod event;
pub mod geometry;
pub mod handler;
pub mod input;
pub mod laws;
