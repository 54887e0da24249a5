//! Verified core of a kit that puts a 3D engine behind a GPUI window.
//!
//! The crate holds what the engines and the chrome decide; talking to the GPU, to the window
//! system and to the clock is left to the program around it. Floating-point numbers pass
//! through as bit patterns ([`scalar::Scalar`]): they are ordered and clamped here, and
//! computed outside.
pub mod adapter;
pub mod bench;
pub mod bytes;
pub mod cache;
pub mod camera;
pub mod chrome;
pub mod dx12;
pub mod engine;
pub mod frames;
pub mod gesture;
pub mod instance;
pub mod memory;
pub mod mesh;
pub mod model;
pub mod opengl;
pub mod pacing;
pub mod pipeline;
pub mod renderer;
pub mod scalar;
pub mod shader;
pub mod spirv;
pub mod target;
pub mod text;
pub mod turns;
pub mod vulkan;
