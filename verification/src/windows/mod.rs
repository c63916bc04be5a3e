//! The transport over two one-way byte channels, one for each direction.

pub mod messagepipe;
