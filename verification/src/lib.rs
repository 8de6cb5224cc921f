//! Input handling and scene bookkeeping of a small 4D-slice renderer.
//!
//! The GPU work (wgpu), the window (winit) and all floating-point geometry
//! (cgmath) live outside this crate; what stands here is the part of the
//! renderer that decides: which keys drive the camera, which way the camera
//! moves, which way the w-slice travels, how window events are dispatched,
//! which bind group layouts each pipeline gets, how the scene's objects are
//! kept, and what a frame does when the surface texture cannot be acquired.

pub mod camera;
pub mod event_handler;
pub mod hypershape;
pub mod input;
pub mod object;
pub mod pipeline;
pub mod renderer;

pub use camera::{CameraController, CameraInputs, MoveDirection};
pub use input::{Key, KeyInput};
pub use event_handler::{cursor_known_after, keyboard_action, window_action, CursorIcon, KeyboardAction, WindowAction, WindowInput};
pub use hypershape::{HyperManager, HypershapeType};
pub use object::ObjectManager;
pub use pipeline::{basic_bind_group_layouts, deduce_pipeline, hyper_bind_group_layouts, PipelineStore, ShaderType};
pub use renderer::{frame_step, FrameStep, SurfaceStatus};
