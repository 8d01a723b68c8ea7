//! The graphics calls that the runtime issues, as plain values.
//!
//! Nothing in this crate talks to a graphics driver. Every operation records
//! the calls it wants made, in order, in the renderer; the host program takes
//! them out and performs them on the live context. A call that returns
//! something (a fresh object name, a compile status, an info log) is made by
//! the host, and its answer is handed to the operation that needs it.

use vstd::prelude::*;

verus! {

/// The binding point of a buffer object.
#[derive(Clone, Copy, Debug, PartialEq, Eq, Structural)]
pub enum BufferTarget {
    /// Vertex attribute data.
    Array,
    /// Index data of indexed draws.
    ElementArray,
}

/// How the driver is told a buffer will be used.
#[derive(Clone, Copy, Debug, PartialEq, Eq, Structural)]
pub enum BufferUsage {
    /// Written once, drawn from many times.
    StaticDraw,
}

/// The unsigned integer type of the elements of an index buffer.
#[derive(Clone, Copy, Debug, PartialEq, Eq, Structural)]
pub enum IndexKind {
    /// One byte per index.
    UnsignedByte,
    /// Two bytes per index.
    UnsignedShort,
    /// Four bytes per index.
    UnsignedInt,
}

impl IndexKind {
    /// Bytes taken by one index of this kind.
    pub open spec fn width(self) -> nat {
        match self {
            IndexKind::UnsignedByte => 1,
            IndexKind::UnsignedShort => 2,
            IndexKind::UnsignedInt => 4,
        }
    }

    /// Bytes taken by one index of this kind.
    pub fn byte_width(self) -> (w: usize)
        ensures
            w == self.width(),
    {
        match self {
            IndexKind::UnsignedByte => 1,
            IndexKind::UnsignedShort => 2,
            IndexKind::UnsignedInt => 4,
        }
    }
}

/// The numeric type of one component of a vertex attribute.
#[derive(Clone, Copy, Debug, PartialEq, Eq, Structural)]
pub enum AttributeKind {
    /// 32-bit IEEE-754 floating point.
    Float,
}

impl AttributeKind {
    /// Bytes taken by one component of this kind.
    pub open spec fn width(self) -> nat {
        match self {
            AttributeKind::Float => 4,
        }
    }

    /// Bytes taken by one component of this kind.
    pub fn byte_width(self) -> (w: usize)
        ensures
            w == self.width(),
    {
        match self {
            AttributeKind::Float => 4,
        }
    }
}

/// The pipeline stage a shader object is compiled for.
#[derive(Clone, Copy, Debug, PartialEq, Eq, Structural)]
pub enum ShaderKind {
    Vertex,
    Fragment,
}

/// A switchable part of the fixed pipeline state.
#[derive(Clone, Copy, Debug, PartialEq, Eq, Structural)]
pub enum Capability {
    CullFace,
    DepthTest,
}

/// The comparison of the depth test.
#[derive(Clone, Copy, Debug, PartialEq, Eq, Structural)]
pub enum DepthFunction {
    Less,
}

/// How the driver assembles primitives from the vertices of a draw.
#[derive(Clone, Copy, Debug, PartialEq, Eq, Structural)]
pub enum PrimitiveMode {
    /// Every three indices form one triangle.
    Triangles,
}

/// The data of one buffer upload, laid out as it is copied to the GPU.
///
/// Floating-point components travel as their IEEE-754 bit patterns, which
/// occupy the same bytes in memory as the numbers themselves.
#[derive(Clone, Debug, PartialEq, Eq)]
pub enum BufferContents {
    /// One-byte unsigned integers.
    Bytes(Vec<u8>),
    /// Two-byte unsigned integers.
    Shorts(Vec<u16>),
    /// Four-byte unsigned integers.
    Words(Vec<u32>),
    /// 32-bit floats, each given by its bit pattern.
    Floats(Vec<u32>),
}

/// The mathematical value of a [`BufferContents`].
pub enum ContentsView {
    Bytes(Seq<u8>),
    Shorts(Seq<u16>),
    Words(Seq<u32>),
    Floats(Seq<u32>),
}

impl ContentsView {
    /// Number of elements.
    pub open spec fn len(self) -> nat {
        match self {
            ContentsView::Bytes(s) => s.len(),
            ContentsView::Shorts(s) => s.len(),
            ContentsView::Words(s) => s.len(),
            ContentsView::Floats(s) => s.len(),
        }
    }

    /// Bytes taken by one element.
    pub open spec fn element_width(self) -> nat {
        match self {
            ContentsView::Bytes(_) => 1,
            ContentsView::Shorts(_) => 2,
            ContentsView::Words(_) => 4,
            ContentsView::Floats(_) => 4,
        }
    }

    /// Bytes taken by all elements together.
    pub open spec fn byte_len(self) -> nat {
        self.len() * self.element_width()
    }
}

impl View for BufferContents {
    type V = ContentsView;

    open spec fn view(&self) -> ContentsView {
        match self {
            BufferContents::Bytes(v) => ContentsView::Bytes(v@),
            BufferContents::Shorts(v) => ContentsView::Shorts(v@),
            BufferContents::Words(v) => ContentsView::Words(v@),
            BufferContents::Floats(v) => ContentsView::Floats(v@),
        }
    }
}

/// One call into the graphics driver, with every argument it is made with.
///
/// Object names, uniform locations and counts are the driver's own numbers.
/// Floating-point arguments are given by their IEEE-754 bit patterns.
#[derive(Clone, Debug, PartialEq, Eq)]
pub enum Command {
    /// Makes `buffer` the current buffer of `target`.
    BindBuffer { target: BufferTarget, buffer: u32 },
    /// Replaces the store of the current buffer of `target` by `size` bytes
    /// taken from `data`.
    BufferData { target: BufferTarget, size: usize, data: BufferContents, usage: BufferUsage },
    /// Deletes one buffer object.
    DeleteBuffer { buffer: u32 },
    /// Makes `array` the current vertex-array object.
    BindVertexArray { array: u32 },
    /// Deletes one vertex-array object.
    DeleteVertexArray { array: u32 },
    /// Switches attribute slot `index` on.
    EnableVertexAttribArray { index: u32 },
    /// Switches attribute slot `index` off.
    DisableVertexAttribArray { index: u32 },
    /// Lets attribute slot `index` read `size` components of `kind` per
    /// vertex from the current array buffer.
    VertexAttribPointer {
        index: u32,
        size: usize,
        kind: AttributeKind,
        normalized: bool,
        stride: usize,
        offset: usize,
    },
    /// Makes `program` the current program.
    UseProgram { program: u32 },
    /// Deletes one program object.
    DeleteProgram { program: u32 },
    /// Deletes one shader object.
    DeleteShader { shader: u32 },
    /// Gives `shader` its source text, as a single string.
    ShaderSource { shader: u32, source: String },
    /// Compiles the source of `shader`.
    CompileShader { shader: u32 },
    /// Attaches `shader` to `program`.
    AttachShader { program: u32, shader: u32 },
    /// Detaches `shader` from `program`.
    DetachShader { program: u32, shader: u32 },
    /// Links the shaders attached to `program`.
    LinkProgram { program: u32 },
    /// Sets a scalar float uniform.
    ProgramUniform1f { program: u32, location: i32, v0: u32 },
    /// Sets `count` two-component float vectors, components in order.
    ProgramUniform2fv { program: u32, location: i32, count: usize, value: Vec<u32> },
    /// Sets `count` 4x4 float matrices, each as sixteen components.
    ProgramUniformMatrix4fv {
        program: u32,
        location: i32,
        count: usize,
        transpose: bool,
        value: Vec<u32>,
    },
    /// Clears the chosen planes of the framebuffer.
    Clear { color: bool, depth: bool },
    /// Sets the colour that `Clear` writes.
    ClearColor { red: u32, green: u32, blue: u32, alpha: u32 },
    /// Sets the rectangle of the window that is drawn to.
    Viewport { x: i32, y: i32, width: i32, height: i32 },
    /// Draws `count` indices of `kind` from the current element buffer,
    /// starting `offset` bytes into it.
    DrawElements { mode: PrimitiveMode, count: usize, kind: IndexKind, offset: usize },
    /// Switches a capability on.
    Enable { capability: Capability },
    /// Chooses the comparison of the depth test.
    DepthFunc { function: DepthFunction },
}

/// The mathematical value of a [`Command`].
pub enum CommandView {
    BindBuffer { target: BufferTarget, buffer: u32 },
    BufferData { target: BufferTarget, size: usize, data: ContentsView, usage: BufferUsage },
    DeleteBuffer { buffer: u32 },
    BindVertexArray { array: u32 },
    DeleteVertexArray { array: u32 },
    EnableVertexAttribArray { index: u32 },
    DisableVertexAttribArray { index: u32 },
    VertexAttribPointer {
        index: u32,
        size: usize,
        kind: AttributeKind,
        normalized: bool,
        stride: usize,
        offset: usize,
    },
    UseProgram { program: u32 },
    DeleteProgram { program: u32 },
    DeleteShader { shader: u32 },
    ShaderSource { shader: u32, source: Seq<char> },
    CompileShader { shader: u32 },
    AttachShader { program: u32, shader: u32 },
    DetachShader { program: u32, shader: u32 },
    LinkProgram { program: u32 },
    ProgramUniform1f { program: u32, location: i32, v0: u32 },
    ProgramUniform2fv { program: u32, location: i32, count: usize, value: Seq<u32> },
    ProgramUniformMatrix4fv {
        program: u32,
        location: i32,
        count: usize,
        transpose: bool,
        value: Seq<u32>,
    },
    Clear { color: bool, depth: bool },
    ClearColor { red: u32, green: u32, blue: u32, alpha: u32 },
    Viewport { x: i32, y: i32, width: i32, height: i32 },
    DrawElements { mode: PrimitiveMode, count: usize, kind: IndexKind, offset: usize },
    Enable { capability: Capability },
    DepthFunc { function: DepthFunction },
}

impl View for Command {
    type V = CommandView;

    open spec fn view(&self) -> CommandView {
        match *self {
            Command::BindBuffer { target, buffer } => CommandView::BindBuffer { target, buffer },
            Command::BufferData { target, size, data, usage } => CommandView::BufferData {
                target,
                size,
                data: data@,
                usage,
            },
            Command::DeleteBuffer { buffer } => CommandView::DeleteBuffer { buffer },
            Command::BindVertexArray { array } => CommandView::BindVertexArray { array },
            Command::DeleteVertexArray { array } => CommandView::DeleteVertexArray { array },
            Command::EnableVertexAttribArray { index } => CommandView::EnableVertexAttribArray {
                index,
            },
            Command::DisableVertexAttribArray { index } => CommandView::DisableVertexAttribArray {
                index,
            },
            Command::VertexAttribPointer { index, size, kind, normalized, stride, offset } =>
                CommandView::VertexAttribPointer { index, size, kind, normalized, stride, offset },
            Command::UseProgram { program } => CommandView::UseProgram { program },
            Command::DeleteProgram { program } => CommandView::DeleteProgram { program },
            Command::DeleteShader { shader } => CommandView::DeleteShader { shader },
            Command::ShaderSource { shader, source } => CommandView::ShaderSource {
                shader,
                source: source@,
            },
            Command::CompileShader { shader } => CommandView::CompileShader { shader },
            Command::AttachShader { program, shader } => CommandView::AttachShader {
                program,
                shader,
            },
            Command::DetachShader { program, shader } => CommandView::DetachShader {
                program,
                shader,
            },
            Command::LinkProgram { program } => CommandView::LinkProgram { program },
            Command::ProgramUniform1f { program, location, v0 } => CommandView::ProgramUniform1f {
                program,
                location,
                v0,
            },
            Command::ProgramUniform2fv { program, location, count, value } =>
                CommandView::ProgramUniform2fv { program, location, count, value: value@ },
            Command::ProgramUniformMatrix4fv { program, location, count, transpose, value } =>
                CommandView::ProgramUniformMatrix4fv {
                    program,
                    location,
                    count,
                    transpose,
                    value: value@,
                },
            Command::Clear { color, depth } => CommandView::Clear { color, depth },
            Command::ClearColor { red, green, blue, alpha } => CommandView::ClearColor {
                red,
                green,
                blue,
                alpha,
            },
            Command::Viewport { x, y, width, height } => CommandView::Viewport {
                x,
                y,
                width,
                height,
            },
            Command::DrawElements { mode, count, kind, offset } => CommandView::DrawElements {
                mode,
                count,
                kind,
                offset,
            },
            Command::Enable { capability } => CommandView::Enable { capability },
            Command::DepthFunc { function } => CommandView::DepthFunc { function },
        }
    }
}

/// The mathematical values of a run of commands, in the same order.
pub open spec fn command_views(commands: Seq<Command>) -> Seq<CommandView> {
    commands.map_values(|c: Command| c@)
}

} // verus!
