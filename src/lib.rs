pub mod engine;
pub mod error;
pub mod flags;
pub mod iter;
pub mod node_iter;
pub mod pos;
pub mod text;
