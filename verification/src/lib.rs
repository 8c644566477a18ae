//! Codec for physical query plans.
//!
//! A plan is a tree of operators drawn from a closed built-in set plus a
//! generic extension operator.  The codec turns a plan into a compact binary
//! wire form and back, preserving the operator kinds, their parameters and
//! the child order.  Expressions and sort orderings are validated against the
//! schema of the freshly reconstructed child, so a decoded plan is always
//! well formed.

pub mod cache;
pub mod codec_base;
pub mod codec_groups;
pub mod codec_op;
pub mod codec_op_rt;
pub mod codec_plan;
pub mod codec_nodes;
pub mod error;
pub mod expr;
pub mod extension;
pub mod items;
pub mod laws;
pub mod output;
pub mod plan;
pub mod registry;
pub mod schema;
pub mod valid;
pub mod views;
pub mod wf;
pub mod wire;
