//! Runtime core of a terminal manga reader: the decisions taken by its input,
//! event, render and worker loops, the image placement bookkeeping and the
//! request helpers of its content client, each with a machine-checked contract.

pub mod api;
pub mod app;
pub mod consts;
pub mod images;
pub mod text;
