//! The calls that the library asks of the graphics driver, and its answers.

use vstd::prelude::*;

verus! {

/// One call into the graphics driver.
///
/// Handles and enumerants are the raw values of the API. Byte strings are
/// handed over as they are to reach the driver, terminator included.
#[derive(Clone, Debug, PartialEq, Eq)]
pub enum GlCall {
    /// Allocates a shader object of the given kind. Answer: its handle.
    CreateShader { kind: u32 },
    /// Replaces the source of a shader object by one zero-terminated string.
    ShaderSource { shader: u32, source: Vec<u8> },
    CompileShader { shader: u32 },
    /// Reads an integer parameter of a shader object into a variable that
    /// holds `initial` before the call. Answer: the variable afterwards.
    GetShaderiv { shader: u32, pname: u32, initial: i32 },
    /// Reads the info log of a shader object into a zeroed buffer of
    /// `capacity` bytes. Answer: the buffer afterwards.
    GetShaderInfoLog { shader: u32, capacity: i32 },
    /// Allocates a program object. Answer: its handle.
    CreateProgram,
    AttachShader { program: u32, shader: u32 },
    LinkProgram { program: u32 },
    /// Reads an integer parameter of a program object into a variable that
    /// holds `initial` before the call. Answer: the variable afterwards.
    GetProgramiv { program: u32, pname: u32, initial: i32 },
    /// Reads the info log of a program object into a zeroed buffer of
    /// `capacity` bytes. Answer: the buffer afterwards.
    GetProgramInfoLog { program: u32, capacity: i32 },
    DetachShader { program: u32, shader: u32 },
    DeleteShader { shader: u32 },
    DeleteProgram { program: u32 },
    UseProgram { program: u32 },
    /// Looks up a vertex attribute by its zero-terminated name. Answer: its
    /// index, or -1.
    GetAttribLocation { program: u32, name: Vec<u8> },
    /// Allocates one vertex array object. Answer: its handle.
    GenVertexArrays,
    BindVertexArray { array: u32 },
    DeleteVertexArrays { array: u32 },
    /// Allocates one buffer object. Answer: its handle.
    GenBuffers,
    BindBuffer { target: u32, buffer: u32 },
    /// Uploads `length` bytes of the array at hand to the buffer bound to
    /// `target`.
    BufferData { target: u32, length: usize, usage: u32 },
    VertexAttribPointer {
        index: u32,
        size: i32,
        kind: u32,
        normalized: bool,
        stride: i32,
        offset: usize,
    },
    EnableVertexAttribArray { index: u32 },
    DrawArrays { mode: u32, first: i32, count: i32 },
    DeleteBuffers { buffer: u32 },
}

/// A driver call as contracts see it: byte strings are sequences.
pub enum Call {
    CreateShader { kind: u32 },
    ShaderSource { shader: u32, source: Seq<u8> },
    CompileShader { shader: u32 },
    GetShaderiv { shader: u32, pname: u32, initial: i32 },
    GetShaderInfoLog { shader: u32, capacity: i32 },
    CreateProgram,
    AttachShader { program: u32, shader: u32 },
    LinkProgram { program: u32 },
    GetProgramiv { program: u32, pname: u32, initial: i32 },
    GetProgramInfoLog { program: u32, capacity: i32 },
    DetachShader { program: u32, shader: u32 },
    DeleteShader { shader: u32 },
    DeleteProgram { program: u32 },
    UseProgram { program: u32 },
    GetAttribLocation { program: u32, name: Seq<u8> },
    GenVertexArrays,
    BindVertexArray { array: u32 },
    DeleteVertexArrays { array: u32 },
    GenBuffers,
    BindBuffer { target: u32, buffer: u32 },
    BufferData { target: u32, length: usize, usage: u32 },
    VertexAttribPointer {
        index: u32,
        size: i32,
        kind: u32,
        normalized: bool,
        stride: i32,
        offset: usize,
    },
    EnableVertexAttribArray { index: u32 },
    DrawArrays { mode: u32, first: i32, count: i32 },
    DeleteBuffers { buffer: u32 },
}

impl View for GlCall {
    type V = Call;

    open spec fn view(&self) -> Call {
        match *self {
            GlCall::CreateShader { kind } => Call::CreateShader { kind },
            GlCall::ShaderSource { shader, source } => Call::ShaderSource {
                shader,
                source: source@,
            },
            GlCall::CompileShader { shader } => Call::CompileShader { shader },
            GlCall::GetShaderiv { shader, pname, initial } => Call::GetShaderiv {
                shader,
                pname,
                initial,
            },
            GlCall::GetShaderInfoLog { shader, capacity } => Call::GetShaderInfoLog {
                shader,
                capacity,
            },
            GlCall::CreateProgram => Call::CreateProgram,
            GlCall::AttachShader { program, shader } => Call::AttachShader { program, shader },
            GlCall::LinkProgram { program } => Call::LinkProgram { program },
            GlCall::GetProgramiv { program, pname, initial } => Call::GetProgramiv {
                program,
                pname,
                initial,
            },
            GlCall::GetProgramInfoLog { program, capacity } => Call::GetProgramInfoLog {
                program,
                capacity,
            },
            GlCall::DetachShader { program, shader } => Call::DetachShader { program, shader },
            GlCall::DeleteShader { shader } => Call::DeleteShader { shader },
            GlCall::DeleteProgram { program } => Call::DeleteProgram { program },
            GlCall::UseProgram { program } => Call::UseProgram { program },
            GlCall::GetAttribLocation { program, name } => Call::GetAttribLocation {
                program,
                name: name@,
            },
            GlCall::GenVertexArrays => Call::GenVertexArrays,
            GlCall::BindVertexArray { array } => Call::BindVertexArray { array },
            GlCall::DeleteVertexArrays { array } => Call::DeleteVertexArrays { array },
            GlCall::GenBuffers => Call::GenBuffers,
            GlCall::BindBuffer { target, buffer } => Call::BindBuffer { target, buffer },
            GlCall::BufferData { target, length, usage } => Call::BufferData {
                target,
                length,
                usage,
            },
            GlCall::VertexAttribPointer { index, size, kind, normalized, stride, offset } => {
                Call::VertexAttribPointer { index, size, kind, normalized, stride, offset }
            },
            GlCall::EnableVertexAttribArray { index } => Call::EnableVertexAttribArray { index },
            GlCall::DrawArrays { mode, first, count } => Call::DrawArrays { mode, first, count },
            GlCall::DeleteBuffers { buffer } => Call::DeleteBuffers { buffer },
        }
    }
}

/// A list of driver calls as contracts see it.
pub open spec fn call_views(calls: Seq<GlCall>) -> Seq<Call> {
    calls.map_values(|call: GlCall| call@)
}

/// What the driver hands back for one call.
#[derive(Clone, Debug, PartialEq, Eq)]
pub enum GlReply {
    /// The call returns nothing.
    Nothing,
    /// The handle of a freshly allocated object; zero when none was allocated.
    Handle(u32),
    /// An integer: a status, a length or an index.
    Value(i32),
    /// The contents of a buffer that the driver wrote to.
    Bytes(Vec<u8>),
}

/// A driver answer as contracts see it.
pub enum Reply {
    Nothing,
    Handle(u32),
    Value(i32),
    Bytes(Seq<u8>),
}

impl View for GlReply {
    type V = Reply;

    open spec fn view(&self) -> Reply {
        match *self {
            GlReply::Nothing => Reply::Nothing,
            GlReply::Handle(handle) => Reply::Handle(handle),
            GlReply::Value(value) => Reply::Value(value),
            GlReply::Bytes(bytes) => Reply::Bytes(bytes@),
        }
    }
}

impl Reply {
    /// The handle that this answer carries. An answer of another kind stands
    /// for a driver that allocated nothing.
    pub open spec fn handle(self) -> u32 {
        match self {
            Reply::Handle(handle) => handle,
            _ => 0,
        }
    }

    /// The integer that this answer carries. An answer of another kind stands
    /// for a driver that left the variable as it was.
    pub open spec fn value_or(self, initial: i32) -> i32 {
        match self {
            Reply::Value(value) => value,
            _ => initial,
        }
    }

    /// The bytes that this answer carries. An answer of another kind stands
    /// for a driver that wrote nothing.
    pub open spec fn bytes(self) -> Seq<u8> {
        match self {
            Reply::Bytes(bytes) => bytes,
            _ => Seq::empty(),
        }
    }
}

impl GlReply {
    pub fn handle(&self) -> (handle: u32)
        ensures
            handle == self@.handle(),
    {
        match self {
            GlReply::Handle(handle) => *handle,
            _ => 0,
        }
    }

    pub fn value_or(&self, initial: i32) -> (value: i32)
        ensures
            value == self@.value_or(initial),
    {
        match self {
            GlReply::Value(value) => *value,
            _ => initial,
        }
    }

    pub fn into_bytes(self) -> (bytes: Vec<u8>)
        ensures
            bytes@ == self@.bytes(),
    {
        match self {
            GlReply::Bytes(bytes) => bytes,
            _ => Vec::new(),
        }
    }
}

} // verus!
