//! The transport over a connected socket that keeps message boundaries and
//! passes a resource handle as ancillary data.

pub mod messagepipe;
