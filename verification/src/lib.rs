//! A verified reconciler for a minimal label controller.
//!
//! The controller watches one resource kind and keeps every observed resource
//! carrying a fixed label pair. This crate holds the decision logic: given one
//! watch event, what patch (if any) to issue and what to record. The
//! surrounding process performs the watch subscription and the patch calls and
//! feeds their outcomes back in.

pub mod labels;
pub mod reconcile;
pub mod resource;
