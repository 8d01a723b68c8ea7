//! The core of a small real-time renderer on a graphics API of the OpenGL
//! kind: which calls are made of the driver, with which arguments and in
//! which order, for buffers, shader programs and draws, and likewise the
//! requests that set a window up.
//!
//! The core makes no call itself. It records the calls in a [`Renderer`],
//! from which the host takes them to perform them, and it is told what the
//! driver answered. So every operation is a function from values to values,
//! and its contract says exactly which calls it issues.

pub mod builder;
pub mod commands;
pub mod indices;
pub mod program;
pub mod renderer;
pub mod values;
pub mod vertices;
pub mod window;

pub use builder::ProgramBuilder;
pub use commands::AttributeKind;
pub use commands::BufferContents;
pub use commands::BufferTarget;
pub use commands::BufferUsage;
pub use commands::Capability;
pub use commands::Command;
pub use commands::DepthFunction;
pub use commands::IndexKind;
pub use commands::PrimitiveMode;
pub use commands::ShaderKind;
pub use indices::IndexType;
pub use indices::Indices;
pub use program::Program;
pub use renderer::IndexStage;
pub use renderer::Renderer;
pub use renderer::VertexStage;
pub use values::FloatBits;
pub use values::Mat4Bits;
pub use values::Vec2Bits;
pub use vertices::VertexAttribute;
pub use vertices::VertexAttributeType;
pub use vertices::Vertices;
pub use window::Event;
pub use window::Key;
pub use window::RawEvent;
pub use window::Window;
pub use window::WindowError;
