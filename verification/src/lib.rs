//! Verified core of a GPU compute backend.
//!
//! The library decides what a compute device is asked to do: which buffers
//! exist, which commands are recorded for each tensor operation and in which
//! order, how parameter blocks are laid out, and which element types an
//! operation accepts. It never talks to a device itself. Every operation
//! records plain [`command::Command`] values; a driver outside this crate
//! performs them and reports back what the device answered.
//!
//! - [`kernel`]: the closed set of kernel tags and the catalog.
//! - [`buffer`], [`command`]: handles, usages, and the commands themselves.
//! - [`backend`]: the compute context, with its buffer store (allocation,
//!   upload, read-back) and its dispatch engine (kernel runs on zero, one or
//!   two inputs).
//! - [`params`], [`bytes`]: parameter blocks and how their words lie in
//!   memory.
//! - [`affine`], [`binary_op`], [`unary_op`], [`conv`], [`convert`],
//!   [`copy`], [`copy_sparse`], [`fill`], [`random`], [`repeat`],
//!   [`upsample_nearest`], [`im2col`]: one module per kernel family.
//! - [`dtype`], [`layout`], [`storage`]: what the tensor layer calls, with
//!   the checks of element types and the sizing of outputs.
//! - [`device`], [`laws`]: a model of the device, and what the recorded
//!   commands of each operation do to it.

pub mod affine;
pub mod backend;
pub mod binary_op;
pub mod buffer;
pub mod bytes;
pub mod command;
pub mod conv;
pub mod convert;
pub mod copy;
pub mod copy_sparse;
pub mod device;
pub mod dtype;
pub mod error;
pub mod fill;
pub mod im2col;
pub mod kernel;
pub mod laws;
pub mod layout;
pub mod params;
pub mod random;
pub mod repeat;
pub mod storage;
pub mod unary_op;
pub mod upsample_nearest;
