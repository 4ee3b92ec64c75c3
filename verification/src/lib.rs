//! Verified core of a small real-time renderer.

pub mod context;
pub mod deferred;
pub mod frame;
pub mod gbuffer;
pub mod input;
pub mod mesh;
pub mod obj;
pub mod pipeline;
pub mod resources;
pub mod state;
pub mod text;
pub mod timeline;
pub mod upload;
