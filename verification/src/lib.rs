//! Verified core of a small 2D sprite engine.
//!
//! The crate holds the parts of the engine that decide something: the
//! entity store, the asset cache, the batch builder, the buffer-slot
//! bookkeeping and the frame state machine. Every function carries a contract
//! that Verus proves, but for the calls into the `image` and `bytemuck`
//! crates, whose contracts are trusted: decoding an image and viewing
//! indices as bytes. Talking to the window system and to the GPU is left to
//! the host program, which receives plain values describing what to do.

pub mod asset_manager;
pub mod batch;
pub mod config;
pub mod decode;
pub mod ecs;
pub mod frame;
pub mod game;
pub mod geometry;
pub mod input;
pub mod logger;
pub mod renderer;
pub mod scalar;
pub mod texture;

pub use asset_manager::AssetManager;
pub use config::GameConfig;
pub use ecs::World;
pub use input::InputState;
pub use renderer::Renderer;
pub use scalar::Scalar;
