//! The calls into the graphics library, and what it answers.
use vstd::prelude::*;

verus! {

/// A binding point for buffer objects.
#[derive(Clone, Copy, Debug, PartialEq, Eq, Structural)]
pub enum Target {
    /// Vertex attributes (`GL_ARRAY_BUFFER`).
    ArrayBuffer,
    /// Uniform blocks (`GL_UNIFORM_BUFFER`).
    UniformBuffer,
}

/// A property of a shader or program that can be asked for.
#[derive(Clone, Copy, Debug, PartialEq, Eq, Structural)]
pub enum Parameter {
    /// Whether the shader compiled (`GL_COMPILE_STATUS`): zero if not.
    CompileStatus,
    /// Whether the program linked (`GL_LINK_STATUS`): zero if not.
    LinkStatus,
    /// Length of the information log, its closing zero byte counted
    /// (`GL_INFO_LOG_LENGTH`).
    InfoLogLength,
}

/// What a buffer's bytes are meant for.
#[derive(Clone, Copy, Debug, PartialEq, Eq, Structural)]
pub enum Usage {
    /// Written once and drawn from many times (`GL_STATIC_DRAW`).
    StaticDraw,
}

/// What the numbers of a vertex attribute are.
#[derive(Clone, Copy, Debug, PartialEq, Eq, Structural)]
pub enum Component {
    /// IEEE 754 single precision (`GL_FLOAT`).
    Float,
}

/// A call into the graphics library, named as the library names it.
///
/// Where the graphics library takes a count of names or of strings, the
/// call stands for a count of one.
///
/// What a call needs beyond these numbers is the driver's to supply: the
/// source text of a shader, the bytes that fill a buffer.
#[derive(Clone, Copy, Debug, PartialEq, Eq, Structural)]
pub enum Call {
    /// Answers with the name of a new shader of the given kind.
    CreateShader { kind: u32 },
    /// Gives the shader its source text, as one string.
    ShaderSource { shader: u32 },
    CompileShader { shader: u32 },
    /// Answers with the value of the parameter, or with `preset` where the
    /// graphics library gives none.
    GetShaderiv { shader: u32, pname: Parameter, preset: i32 },
    /// Reads the shader's log into a buffer of `capacity` bytes and answers
    /// with the first `length` bytes of that buffer.
    GetShaderInfoLog { shader: u32, capacity: i32, length: usize },
    DeleteShader { shader: u32 },
    /// Answers with the name of a new program.
    CreateProgram,
    AttachShader { program: u32, shader: u32 },
    LinkProgram { program: u32 },
    /// Answers with the value of the parameter, or with `preset` where the
    /// graphics library gives none.
    GetProgramiv { program: u32, pname: Parameter, preset: i32 },
    /// Reads the program's log into a buffer of `capacity` bytes and answers
    /// with the first `length` bytes of that buffer.
    GetProgramInfoLog { program: u32, capacity: i32, length: usize },
    DetachShader { program: u32, shader: u32 },
    UseProgram { program: u32 },
    DeleteProgram { program: u32 },
    /// Answers with the name of one new buffer.
    GenBuffers,
    BindBuffer { target: Target, buffer: u32 },
    /// Fills the buffer bound to `target` with `size` bytes.
    BufferData { target: Target, size: isize, usage: Usage },
    BindBufferBase { target: Target, index: u32, buffer: u32 },
    /// Deletes the one buffer named.
    DeleteBuffers { buffer: u32 },
    /// Deletes the one vertex array named.
    DeleteVertexArrays { array: u32 },
    /// Answers with the name of one new vertex array.
    GenVertexArrays,
    BindVertexArray { array: u32 },
    EnableVertexAttribArray { index: u32 },
    /// Declares attribute `index` to be `components` numbers per vertex,
    /// `stride` bytes apart, the first of them `offset` bytes into the bound
    /// array buffer. Whole numbers are scaled to the unit range if
    /// `normalized`.
    VertexAttribPointer {
        index: u32,
        components: i32,
        kind: Component,
        normalized: bool,
        stride: i32,
        offset: usize,
    },
}

/// What the graphics library answered to a call.
#[derive(Clone, Debug, PartialEq, Eq)]
pub enum Reply {
    /// The call answers nothing, or no call was made.
    Nothing,
    /// The name of a new object.
    Handle(u32),
    /// The value of a parameter.
    Value(i32),
    /// Bytes of an information log.
    Log(Vec<u8>),
}

/// The kinds of [`Reply`].
#[derive(Clone, Copy, Debug, PartialEq, Eq, Structural)]
pub enum ReplyKind {
    Nothing,
    Handle,
    Value,
    Log,
}

impl Call {
    /// The kind of reply that the call gives.
    pub open spec fn answer(self) -> ReplyKind {
        match self {
            Call::CreateShader { .. }
            | Call::CreateProgram
            | Call::GenBuffers
            | Call::GenVertexArrays => ReplyKind::Handle,
            Call::GetShaderiv { .. } | Call::GetProgramiv { .. } => ReplyKind::Value,
            Call::GetShaderInfoLog { .. } | Call::GetProgramInfoLog { .. } => ReplyKind::Log,
            _ => ReplyKind::Nothing,
        }
    }
}

impl Reply {
    /// The kind of the reply.
    pub open spec fn kind(self) -> ReplyKind {
        match self {
            Reply::Nothing => ReplyKind::Nothing,
            Reply::Handle(_) => ReplyKind::Handle,
            Reply::Value(_) => ReplyKind::Value,
            Reply::Log(_) => ReplyKind::Log,
        }
    }
}

} // verus!
