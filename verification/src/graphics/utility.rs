//! The enumerants of the graphics API, the host types that map to them, and
//! helpers around single exchanges with the driver.

use crate::graphics::command::{call_views, Call, GlCall};
use vstd::prelude::*;
use vstd::slice::slice_subrange;
use vstd::string::*;
use vstd::utf8::{decode_utf8, valid_utf8};

verus! {

pub const GL_POINTS: u32 = 0x0000;

pub const GL_LINES: u32 = 0x0001;

pub const GL_LINE_LOOP: u32 = 0x0002;

pub const GL_LINE_STRIP: u32 = 0x0003;

pub const GL_TRIANGLES: u32 = 0x0004;

pub const GL_TRIANGLE_STRIP: u32 = 0x0005;

pub const GL_TRIANGLE_FAN: u32 = 0x0006;

pub const GL_FLOAT: u32 = 0x1406;

pub const GL_FRAGMENT_SHADER: u32 = 0x8B30;

pub const GL_VERTEX_SHADER: u32 = 0x8B31;

pub const GL_COMPILE_STATUS: u32 = 0x8B81;

pub const GL_LINK_STATUS: u32 = 0x8B82;

pub const GL_INFO_LOG_LENGTH: u32 = 0x8B84;

pub const GL_ARRAY_BUFFER: u32 = 0x8892;

pub const GL_STATIC_DRAW: u32 = 0x88E4;

pub const GL_NO_ERROR: u32 = 0;

/// Primitive topology used to interpret the vertices of a draw call.
#[allow(non_camel_case_types)]
#[derive(Clone, Copy, Debug, PartialEq, Eq, Structural)]
pub enum GL_DrawMode {
    POINTS,
    LINES,
    LINE_LOOP,
    LINE_STRIP,
    TRIANGLES,
    TRIANGLE_STRIP,
    TRIANGLE_FAN,
}

impl GL_DrawMode {
    /// The enumerant that the graphics API knows this mode by.
    pub open spec fn api_value(self) -> u32 {
        match self {
            GL_DrawMode::POINTS => GL_POINTS,
            GL_DrawMode::LINES => GL_LINES,
            GL_DrawMode::LINE_LOOP => GL_LINE_LOOP,
            GL_DrawMode::LINE_STRIP => GL_LINE_STRIP,
            GL_DrawMode::TRIANGLES => GL_TRIANGLES,
            GL_DrawMode::TRIANGLE_STRIP => GL_TRIANGLE_STRIP,
            GL_DrawMode::TRIANGLE_FAN => GL_TRIANGLE_FAN,
        }
    }

    pub fn value(&self) -> (v: u32)
        ensures
            v == self.api_value(),
    {
        match self {
            GL_DrawMode::POINTS => GL_POINTS,
            GL_DrawMode::LINES => GL_LINES,
            GL_DrawMode::LINE_LOOP => GL_LINE_LOOP,
            GL_DrawMode::LINE_STRIP => GL_LINE_STRIP,
            GL_DrawMode::TRIANGLES => GL_TRIANGLES,
            GL_DrawMode::TRIANGLE_STRIP => GL_TRIANGLE_STRIP,
            GL_DrawMode::TRIANGLE_FAN => GL_TRIANGLE_FAN,
        }
    }

    /// Triangles, the mode a program draws with unless told otherwise.
    pub fn default() -> (mode: Self)
        ensures
            mode == GL_DrawMode::TRIANGLES,
            mode.api_value() == 0x0004,
    {
        GL_DrawMode::TRIANGLES
    }

    /// No two modes share an enumerant.
    pub proof fn lemma_value_is_injective(a: GL_DrawMode, b: GL_DrawMode)
        requires
            a.api_value() == b.api_value(),
        ensures
            a == b,
    {
    }
}

/// The two programmable stages that make up a shader program.
#[derive(Clone, Copy, Debug, PartialEq, Eq, Structural)]
pub enum ShaderStage {
    Vertex,
    Fragment,
}

impl ShaderStage {
    /// The enumerant that the graphics API knows this kind of shader object by.
    pub open spec fn api_value(self) -> u32 {
        match self {
            ShaderStage::Vertex => GL_VERTEX_SHADER,
            ShaderStage::Fragment => GL_FRAGMENT_SHADER,
        }
    }

    pub fn value(&self) -> (v: u32)
        ensures
            v == self.api_value(),
    {
        match self {
            ShaderStage::Vertex => GL_VERTEX_SHADER,
            ShaderStage::Fragment => GL_FRAGMENT_SHADER,
        }
    }
}

/// A scalar that can be the element of a vertex attribute array.
///
/// Implementors report the enumerant of their element type. Nothing is
/// asked of the answer: the library passes it on as it is.
#[allow(non_camel_case_types)]
pub trait GL_DataType {
    fn value(&self) -> u32;
}

/// A 32-bit IEEE 754 number, held by its bit pattern.
#[derive(Clone, Copy, Debug, PartialEq, Eq, Structural)]
pub struct FloatBits(pub u32);

impl GL_DataType for FloatBits {
    fn value(&self) -> (v: u32)
        ensures
            v == GL_FLOAT,
    {
        GL_FLOAT
    }
}

/// The call that allocates a vertex array object.
pub fn gen_vertex_array() -> (call: GlCall)
    ensures
        call@ == Call::GenVertexArrays,
{
    GlCall::GenVertexArrays
}

/// The call that allocates a shader object of the given kind.
pub fn create_shader(kind: u32) -> (call: GlCall)
    ensures
        call@ == (Call::CreateShader { kind }),
{
    GlCall::CreateShader { kind }
}

/// The call that reads a parameter of a shader object. A driver that does
/// not answer leaves the parameter at one.
pub fn get_shaderiv(id: u32, pname: u32) -> (call: GlCall)
    ensures
        call@ == (Call::GetShaderiv { shader: id, pname, initial: 1 }),
{
    GlCall::GetShaderiv { shader: id, pname, initial: 1 }
}

/// The calls that hand a source to the compiler and ask how it went.
pub open spec fn compilation(source: Seq<u8>, shader: u32) -> Seq<Call> {
    seq![
        Call::ShaderSource { shader, source: source.push(0) },
        Call::CompileShader { shader },
        Call::GetShaderiv { shader, pname: GL_COMPILE_STATUS, initial: 1 },
    ]
}

/// The calls that give a shader object its source, with a zero byte behind
/// it, compile it and ask for the compile status.
pub fn shader_source(source: &[u8], shader: u32) -> (calls: Vec<GlCall>)
    ensures
        call_views(calls@) == compilation(source@, shader),
{
    let mut bytes: Vec<u8> = Vec::new();
    let mut i: usize = 0;
    while i < source.len()
        invariant
            i <= source@.len(),
            bytes@ == source@.take(i as int),
        decreases source@.len() - i,
    {
        bytes.push(source[i]);
        assert(source@.take(i as int).push(source@[i as int]) =~= source@.take(i + 1));
        i += 1;
    }
    assert(source@.take(i as int) =~= source@);
    bytes.push(0);
    let mut calls: Vec<GlCall> = Vec::new();
    calls.push(GlCall::ShaderSource { shader, source: bytes });
    calls.push(GlCall::CompileShader { shader });
    calls.push(get_shaderiv(shader, GL_COMPILE_STATUS));
    assert(call_views(calls@) =~= compilation(source@, shader));
    calls
}

/// The text that lossy UTF-8 decoding makes of `bytes`.
pub uninterp spec fn lossy_text(bytes: Seq<u8>) -> Seq<char>;

/// `String::from_utf8_lossy` of std, made into an owned string.
///
/// Trusted: the result is a function of the bytes alone, and bytes that are
/// valid UTF-8 decode to the text they encode. Of other input std promises
/// that each invalid sequence becomes U+FFFD; that is not stated here.
#[verifier::external_body]
fn from_utf8_lossy(bytes: &[u8]) -> (text: String)
    ensures
        text@ == lossy_text(bytes@),
        valid_utf8(bytes@) ==> text@ == decode_utf8(bytes@),
{
    String::from_utf8_lossy(bytes).into_owned()
}

/// `n` is where the text in `bytes` ends: at the first zero byte, or at the
/// end where there is none.
pub open spec fn is_text_end(bytes: Seq<u8>, n: int) -> bool {
    &&& 0 <= n <= bytes.len()
    &&& forall|i: int| 0 <= i < n ==> bytes[i] != 0
    &&& n < bytes.len() ==> bytes[n] == 0
}

/// Where the text in `bytes` ends.
pub open spec fn text_end(bytes: Seq<u8>) -> int {
    choose|n: int| is_text_end(bytes, n)
}

/// Every byte string has exactly one text end.
pub proof fn lemma_text_end(bytes: Seq<u8>, n: int)
    requires
        is_text_end(bytes, n),
    ensures
        text_end(bytes) == n,
{
    let m = text_end(bytes);
    assert(is_text_end(bytes, m));
    if m < n {
        assert(bytes[m] != 0);
    }
    if n < m {
        assert(bytes[n] != 0);
    }
}

/// The part of a log buffer that the driver was given to fill: its first
/// `length` bytes, or all of it where it is shorter.
pub open spec fn log_window(length: i32, buffer: Seq<u8>) -> Seq<u8> {
    if length <= 0 {
        Seq::empty()
    } else if length < buffer.len() {
        buffer.take(length as int)
    } else {
        buffer
    }
}

/// The info log behind a reported `length` and the `buffer` that came back:
/// none for a length of zero or less; else the window up to its first zero
/// byte, decoded lossily.
pub open spec fn info_log(length: i32, buffer: Seq<u8>) -> Option<Seq<char>> {
    if length <= 0 {
        None
    } else {
        let window = log_window(length, buffer);
        Some(lossy_text(window.take(text_end(window))))
    }
}

/// The info log as an error carries it: empty where the driver kept none.
pub open spec fn info_log_or_empty(length: i32, buffer: Seq<u8>) -> Seq<char> {
    match info_log(length, buffer) {
        Some(text) => text,
        None => Seq::empty(),
    }
}

fn find_text_end(bytes: &[u8]) -> (n: usize)
    ensures
        is_text_end(bytes@, n as int),
{
    let mut n: usize = 0;
    while n < bytes.len() && bytes[n] != 0
        invariant
            n <= bytes@.len(),
            forall|i: int| 0 <= i < n ==> bytes@[i] != 0,
        decreases bytes@.len() - n,
    {
        n += 1;
    }
    n
}

/// Reads the info log out of the buffer that the driver filled, given the
/// length that it reported for the log.
pub fn get_shader_info_log(length: i32, buffer: &Vec<u8>) -> (text: Option<String>)
    ensures
        match text {
            Some(text) => info_log(length, buffer@) == Some(text@),
            None => info_log(length, buffer@).is_none(),
        },
{
    if length <= 0 {
        return None;
    }
    let window = if (length as usize) < buffer.len() {
        slice_subrange(buffer.as_slice(), 0, length as usize)
    } else {
        buffer.as_slice()
    };
    assert(window@ == log_window(length, buffer@));
    let end = find_text_end(window);
    proof {
        lemma_text_end(window@, end as int);
    }
    Some(from_utf8_lossy(slice_subrange(window, 0, end)))
}

/// The character of one decimal digit.
pub open spec fn digit(d: nat) -> char {
    if d == 0 {
        '0'
    } else if d == 1 {
        '1'
    } else if d == 2 {
        '2'
    } else if d == 3 {
        '3'
    } else if d == 4 {
        '4'
    } else if d == 5 {
        '5'
    } else if d == 6 {
        '6'
    } else if d == 7 {
        '7'
    } else if d == 8 {
        '8'
    } else {
        '9'
    }
}

/// A number in decimal digits, the most significant first.
pub open spec fn decimal(value: nat) -> Seq<char>
    decreases value,
{
    if value < 10 {
        seq![digit(value)]
    } else {
        decimal(value / 10).push(digit(value % 10))
    }
}

/// What is reported of a driver error met at `location`.
pub open spec fn error_report(location: Seq<char>, error: u32) -> Seq<char> {
    "OpenGL error at "@ + location + ": "@ + decimal(error as nat)
}

fn digit_text(d: u32) -> (text: &'static str)
    requires
        d < 10,
    ensures
        text@ == seq![digit(d as nat)],
{
    proof {
        reveal_strlit("0");
        reveal_strlit("1");
        reveal_strlit("2");
        reveal_strlit("3");
        reveal_strlit("4");
        reveal_strlit("5");
        reveal_strlit("6");
        reveal_strlit("7");
        reveal_strlit("8");
        reveal_strlit("9");
    }
    let text = match d {
        0 => "0",
        1 => "1",
        2 => "2",
        3 => "3",
        4 => "4",
        5 => "5",
        6 => "6",
        7 => "7",
        8 => "8",
        _ => "9",
    };
    assert(text@ =~= seq![digit(d as nat)]);
    text
}

fn decimal_text(value: u32) -> (text: String)
    ensures
        text@ == decimal(value as nat),
    decreases value,
{
    if value < 10 {
        String::from_str(digit_text(value))
    } else {
        let mut text = decimal_text(value / 10);
        text.append(digit_text(value % 10));
        assert(text@ =~= decimal(value as nat));
        text
    }
}

/// Looks at the error code that the driver was asked for after the work at
/// `location`: nothing is reported of `GL_NO_ERROR`, and of any other code
/// the location and the code in decimal.
pub fn check_gl_error(location: &str, error: u32) -> (report: Option<String>)
    ensures
        match report {
            Some(text) => error != GL_NO_ERROR && text@ == error_report(location@, error),
            None => error == GL_NO_ERROR,
        },
{
    if error != GL_NO_ERROR {
        let number = decimal_text(error);
        Some(
            String::from_str("OpenGL error at ").concat(location).concat(": ").concat(
                number.as_str(),
            ),
        )
    } else {
        None
    }
}

} // verus!
