//! Capability modelling, format negotiation, control normalisation and
//! stream bookkeeping for V4L2-style capture devices.
//!
//! Every item here works on plain values: the device itself (ioctls, buffer
//! mappings, threads) is driven by the caller, which hands the results of its
//! queries to these functions and performs the actions they return.
use vstd::prelude::*;

pub mod types;
pub mod fourcc;
pub mod catalog;
pub mod controls;
pub mod request;
pub mod negotiate;
pub mod session;
pub mod text;

