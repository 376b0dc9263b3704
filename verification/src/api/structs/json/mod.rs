//! The data of the content service as it travels: what is sent, what
//! comes back, and the objects inside.

pub mod body;
pub mod data;
pub mod responses;
