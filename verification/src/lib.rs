//! A safety layer over a graphics-device API.
//!
//! Every device resource (buffer, vertex array, shader stage, shader
//! program, texture) wraps exactly one native id handed out by a live
//! [`gl45::RenderingContext`].  The context keeps an explicit table of the
//! ids that are currently alive, so that every operation which needs the
//! device can check that its handle still belongs to a live context, and a
//! release can be shown to happen exactly once.  On top of the resource
//! model sits a run-loop state machine that sequences context setup, user
//! callbacks, event dispatch and frame presentation.
//!
//! The native driver and the windowing system are collaborators outside
//! this crate: the library decides, records and checks; an embedding
//! program performs the actual device calls.

pub mod app;
pub mod debug_output;
pub mod gl45;

pub use crate::app::{
    run_headless_once, AppOptions, FrameAction, KeyAction, KeyCode, LoopState, Phase, WindowEvent,
    WindowSetup,
};
pub use crate::debug_output::{
    is_debug_output_supported, severity_label, should_enable_debug_output, should_report,
    source_label, type_label, DebugSeverity, DebugSource, DebugType,
};
pub use crate::gl45::array::{DrawCommand, DrawMode, SetupStep, VertexArray, VertexArrayDesc};
pub use crate::gl45::attrib::{Attrib, AttribBindPoint, AttribBinding, AttribFormat, AttribKind};
pub use crate::gl45::buffer::{Buffer, BufferUsage};
pub use crate::gl45::shader::{
    DriverStatus, LinkReport, Shader, ShaderError, ShaderStage, ShaderStageError, ShaderStageKind,
};
pub use crate::gl45::texture::{InternalFormat, PixelFormat, Texture, TextureFilter, TextureWrap};
pub use crate::gl45::uniform::{SetUniform, UniformLocation, UniformValue};
pub use crate::gl45::{GLHandle, RawGLHandle, RenderingContext};
