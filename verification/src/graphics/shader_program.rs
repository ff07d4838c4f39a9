//! A shader together with a vertex array object and its attribute buffers:
//! the unit that is bound and drawn.

pub mod builder;
pub mod ownership;

use crate::graphics::command::{call_views, Call, GlCall, GlReply};
use crate::graphics::name_map::NameMap;
use crate::graphics::shader::error::{Fault, ShaderError};
use crate::graphics::shader::source::ShaderRegistry;
use crate::graphics::shader::uniform_map::UniformData;
use crate::graphics::shader::{Shader, ShaderState};
use crate::graphics::shader_program::builder::{
    start_program, ProgramBuild, ProgramBuildStep, ProgramStep,
};
use crate::graphics::utility::{GL_DataType, GL_DrawMode, GL_ARRAY_BUFFER, GL_STATIC_DRAW};
use vstd::prelude::*;

verus! {

/// The buffer object behind one vertex attribute, and how many vertices the
/// array in it holds.
#[derive(Clone, Copy, Debug, PartialEq, Eq, Structural)]
pub struct AttributeBuffer {
    pub buffer: u32,
    pub vertices: usize,
}

/// A shader with its vertex array object, its draw mode and its attribute
/// buffers by name.
#[allow(non_camel_case_types)]
pub struct shader_program<DataType: GL_DataType + UniformData> {
    shader: Shader<DataType>,
    vao: u32,
    drawmode: GL_DrawMode,
    buffers: NameMap<AttributeBuffer>,
}

/// A shader program as contracts see it.
pub struct ProgramState {
    pub shader: ShaderState,
    pub vao: u32,
    pub drawmode: GL_DrawMode,
    pub buffers: Map<Seq<char>, AttributeBuffer>,
}

impl<DataType: GL_DataType + UniformData> View for shader_program<DataType> {
    type V = ProgramState;

    closed spec fn view(&self) -> ProgramState {
        ProgramState {
            shader: self.shader@,
            vao: self.vao,
            drawmode: self.drawmode,
            buffers: self.buffers@,
        }
    }
}

/// A vertex array that waits for its buffer object.
pub struct ArrayUpload {
    name: String,
    position: u32,
    datasize: i32,
    length: usize,
    byte_length: usize,
    element_type: u32,
}

/// An array upload as contracts see it.
pub struct Upload {
    /// The name of the attribute.
    pub name: Seq<char>,
    /// The index of the attribute.
    pub position: u32,
    /// The number of components that make up one vertex.
    pub datasize: i32,
    /// The number of elements in the array.
    pub length: usize,
    /// The number of bytes in the array.
    pub byte_length: usize,
    /// The enumerant of the element type.
    pub element_type: u32,
}

impl View for ArrayUpload {
    type V = Upload;

    closed spec fn view(&self) -> Upload {
        Upload {
            name: self.name@,
            position: self.position,
            datasize: self.datasize,
            length: self.length,
            byte_length: self.byte_length,
            element_type: self.element_type,
        }
    }
}

/// The number of whole vertices in `length` elements of `datasize`
/// components each.
pub open spec fn vertex_count(length: usize, datasize: i32) -> usize {
    if datasize > 0 {
        (length as int / datasize as int) as usize
    } else {
        0
    }
}

/// `vertices` is the vertex count of the largest array among `buffers`.
pub open spec fn is_largest(buffers: Map<Seq<char>, AttributeBuffer>, vertices: usize) -> bool {
    &&& exists|name: Seq<char>|
        buffers.contains_key(name) && (#[trigger] buffers[name]).vertices == vertices
    &&& forall|name: Seq<char>|
        buffers.contains_key(name) ==> (#[trigger] buffers[name]).vertices <= vertices
}

/// The vertex count of the largest array among `buffers`.
pub open spec fn largest(buffers: Map<Seq<char>, AttributeBuffer>) -> usize {
    choose|vertices: usize| is_largest(buffers, vertices)
}

/// There is at most one largest vertex count.
pub proof fn lemma_largest(buffers: Map<Seq<char>, AttributeBuffer>, vertices: usize)
    requires
        is_largest(buffers, vertices),
    ensures
        largest(buffers) == vertices,
{
    let other = largest(buffers);
    assert(is_largest(buffers, other));
}

/// A vertex count as a draw call takes it: capped at the largest `i32`.
pub open spec fn draw_count(vertices: usize) -> i32 {
    if vertices > i32::MAX {
        i32::MAX
    } else {
        vertices as i32
    }
}

impl ProgramState {
    /// A program right after construction: no attribute is set.
    pub open spec fn fresh(shader: ShaderState, vao: u32, drawmode: GL_DrawMode) -> ProgramState {
        ProgramState { shader, vao, drawmode, buffers: Map::empty() }
    }

    /// The calls that put an array into the buffer object `buffer` and
    /// point the attribute at it: the vertex array object is bound first,
    /// the data is uploaded as static draw data, and the attribute reads it
    /// tightly packed from offset zero, unnormalised, and is enabled. A
    /// buffer that the name had before is deleted ahead of all that.
    pub open spec fn store_calls(self, upload: Upload, buffer: u32) -> Seq<Call> {
        let configure = seq![
            Call::BindVertexArray { array: self.vao },
            Call::BindBuffer { target: GL_ARRAY_BUFFER, buffer },
            Call::BufferData {
                target: GL_ARRAY_BUFFER,
                length: upload.byte_length,
                usage: GL_STATIC_DRAW,
            },
            Call::VertexAttribPointer {
                index: upload.position,
                size: upload.datasize,
                kind: upload.element_type,
                normalized: false,
                stride: 0,
                offset: 0,
            },
            Call::EnableVertexAttribArray { index: upload.position },
        ];
        if self.buffers.contains_key(upload.name) {
            seq![Call::DeleteBuffers { buffer: self.buffers[upload.name].buffer }] + configure
        } else {
            configure
        }
    }

    /// The program after an array was stored in the buffer object `buffer`.
    pub open spec fn stored(self, upload: Upload, buffer: u32) -> ProgramState {
        ProgramState {
            buffers: self.buffers.insert(
                upload.name,
                AttributeBuffer {
                    buffer,
                    vertices: vertex_count(upload.length, upload.datasize),
                },
            ),
            ..self
        }
    }

    /// The draw call: none while no attribute is set; else an array draw in
    /// the program's mode from vertex zero, for as many vertices as the
    /// largest array holds.
    pub open spec fn draw_call(self) -> Option<Call> {
        if self.buffers.dom() =~= Set::<Seq<char>>::empty() {
            None
        } else {
            Some(
                Call::DrawArrays {
                    mode: self.drawmode.api_value(),
                    first: 0,
                    count: draw_count(largest(self.buffers)),
                },
            )
        }
    }
}

/// `names` lists every attribute of `buffers` once.
pub open spec fn lists_attributes(
    buffers: Map<Seq<char>, AttributeBuffer>,
    names: Seq<Seq<char>>,
) -> bool {
    &&& names.no_duplicates()
    &&& forall|name: Seq<char>| buffers.contains_key(name) <==> names.contains(name)
}

/// The calls that delete the buffer objects of the attributes `names`, one
/// call for each name.
pub open spec fn buffer_deletions(
    buffers: Map<Seq<char>, AttributeBuffer>,
    names: Seq<Seq<char>>,
) -> Seq<Call> {
    Seq::new(names.len(), |i: int| Call::DeleteBuffers { buffer: buffers[names[i]].buffer })
}

impl ProgramState {
    /// The calls that delete what the program owns: the buffer objects of
    /// the attributes in the order of `names`, then the vertex array
    /// object, then the shader's program.
    pub open spec fn dispose_calls(self, names: Seq<Seq<char>>) -> Seq<Call> {
        buffer_deletions(self.buffers, names) + seq![
            Call::DeleteVertexArrays { array: self.vao },
            Call::DeleteProgram { program: self.shader.program },
        ]
    }

    /// The program after `dispose`: its shader is disposed and no attribute
    /// is left.
    pub open spec fn disposed(self) -> ProgramState {
        ProgramState { shader: self.shader.disposed(), buffers: Map::empty(), ..self }
    }
}

/// How many times `call` occurs among `calls`.
pub open spec fn occurrences(calls: Seq<Call>, call: Call) -> nat
    decreases calls.len(),
{
    if calls.len() == 0 {
        0
    } else {
        occurrences(calls.drop_last(), call) + if calls.last() == call {
            1nat
        } else {
            0nat
        }
    }
}

/// Storing an array under a name that has a buffer deletes that buffer
/// exactly once; storing under a new name deletes nothing.
pub proof fn lemma_replaced_buffer_is_deleted_once(
    program: ProgramState,
    upload: Upload,
    buffer: u32,
    deleted: u32,
)
    ensures
        occurrences(program.store_calls(upload, buffer), Call::DeleteBuffers { buffer: deleted })
            == if program.buffers.contains_key(upload.name) && program.buffers[upload.name].buffer
            == deleted {
            1nat
        } else {
            0nat
        },
        program.stored(upload, buffer).buffers[upload.name].buffer == buffer,
{
    reveal_with_fuel(occurrences, 8);
    let calls5 = program.store_calls(upload, buffer);
    let calls4 = calls5.drop_last();
    let calls3 = calls4.drop_last();
    let calls2 = calls3.drop_last();
    let calls1 = calls2.drop_last();
    let calls0 = calls1.drop_last();
    if program.buffers.contains_key(upload.name) {
        assert(calls0.len() == 1);
        assert(calls0.drop_last().len() == 0);
        assert(calls0.last() == Call::DeleteBuffers { buffer: program.buffers[upload.name].buffer });
    } else {
        assert(calls0.len() == 0);
    }
}

impl<DataType: GL_DataType + UniformData> shader_program<DataType> {
    pub closed spec fn wf(&self) -> bool {
        self.shader.wf() && self.buffers.wf()
    }

    /// Starts the construction of a program from two sources of the
    /// registry. The shader is built first, then a vertex array object is
    /// asked for; see [`ProgramBuild::step`].
    pub fn new(
        registry: &ShaderRegistry,
        vertex_path: &str,
        fragment_path: &str,
        drawmode: GL_DrawMode,
    ) -> (started: Result<ProgramBuildStep<DataType>, ShaderError>)
        requires
            registry.wf(),
        ensures
            match started {
                Ok(step) => start_program(registry@, vertex_path@, fragment_path@, drawmode)
                    == Ok::<ProgramStep, Fault>(step@) && step.wf(),
                Err(error) => start_program(registry@, vertex_path@, fragment_path@, drawmode)
                    == Err::<ProgramStep, Fault>(error@),
            },
    {
        match Shader::new(registry, vertex_path, fragment_path) {
            Ok(step) => Ok(ProgramBuild::lift(drawmode, step)),
            Err(error) => Err(error),
        }
    }

    pub fn shader(&self) -> (shader: &Shader<DataType>)
        requires
            self.wf(),
        ensures
            shader.wf(),
            shader@ == self@.shader,
    {
        &self.shader
    }

    pub fn vao(&self) -> (vao: u32)
        ensures
            vao == self@.vao,
    {
        self.vao
    }

    pub fn drawmode(&self) -> (drawmode: GL_DrawMode)
        ensures
            drawmode == self@.drawmode,
    {
        self.drawmode
    }

    /// The buffer behind the attribute `name`.
    pub fn buffer(&self, name: &str) -> (found: Option<AttributeBuffer>)
        requires
            self.wf(),
        ensures
            match found {
                Some(buffer) => self@.buffers.contains_key(name@) && buffer == self@.buffers[name@],
                None => !self@.buffers.contains_key(name@),
            },
    {
        match self.buffers.get(name) {
            Some(buffer) => Some(*buffer),
            None => None,
        }
    }

    /// Takes the measure of a vertex array for the attribute `name` at index
    /// `position`, with `datasize` components to a vertex, and asks for a
    /// buffer object to put it in. The answer goes to
    /// [`shader_program::store_array`] together with the upload.
    ///
    /// The element type of the upload is what the first element reports of
    /// itself, whatever that is; so the array must not be empty.
    pub fn set_array(&self, name: String, position: u32, datasize: i32, data: &[DataType]) -> (asked:
        (ArrayUpload, GlCall))
        requires
            data@.len() > 0,
        ensures
            asked.0@.name == name@,
            asked.0@.position == position,
            asked.0@.datasize == datasize,
            asked.0@.length == data@.len(),
            asked.0@.byte_length == data@.len() * vstd::layout::size_of::<DataType>(),
            asked.1@ == Call::GenBuffers,
    {
        broadcast use vstd::layout::layout_of_slices;

        let length = data.len();
        let byte_length = core::mem::size_of_val(data);
        let element_type = data[0].value();
        (
            ArrayUpload { name, position, datasize, length, byte_length, element_type },
            GlCall::GenBuffers,
        )
    }

    /// Records the buffer object that the driver named for an upload, and
    /// hands back the calls that fill it and point the attribute at it.
    pub fn store_array(&mut self, upload: ArrayUpload, reply: &GlReply) -> (calls: Vec<GlCall>)
        requires
            old(self).wf(),
        ensures
            final(self).wf(),
            final(self)@ == old(self)@.stored(upload@, reply@.handle()),
            call_views(calls@) == old(self)@.store_calls(upload@, reply@.handle()),
    {
        let buffer = reply.handle();
        let vertices = if upload.datasize > 0 {
            upload.length / (upload.datasize as usize)
        } else {
            0
        };
        let mut calls: Vec<GlCall> = Vec::new();
        let replaced = self.buffers.insert(upload.name.as_str(), AttributeBuffer { buffer, vertices });
        match replaced {
            Some(previous) => {
                calls.push(GlCall::DeleteBuffers { buffer: previous.buffer });
            },
            None => {},
        }
        calls.push(GlCall::BindVertexArray { array: self.vao });
        calls.push(GlCall::BindBuffer { target: GL_ARRAY_BUFFER, buffer });
        calls.push(
            GlCall::BufferData {
                target: GL_ARRAY_BUFFER,
                length: upload.byte_length,
                usage: GL_STATIC_DRAW,
            },
        );
        calls.push(
            GlCall::VertexAttribPointer {
                index: upload.position,
                size: upload.datasize,
                kind: upload.element_type,
                normalized: false,
                stride: 0,
                offset: 0,
            },
        );
        calls.push(GlCall::EnableVertexAttribArray { index: upload.position });
        assert(call_views(calls@) =~= old(self)@.store_calls(upload@, reply@.handle()));
        calls
    }

    /// The call that binds the program's vertex array object.
    pub fn bind(&self) -> (call: GlCall)
        ensures
            call@ == (Call::BindVertexArray { array: self@.vao }),
    {
        GlCall::BindVertexArray { array: self.vao }
    }

    /// The call that installs the shader's program as the active one.
    pub fn useshader(&self) -> (call: GlCall)
        ensures
            call@ == (Call::UseProgram { program: self@.shader.program }),
    {
        self.shader.useprogram()
    }

    /// The draw call, if there is anything to draw.
    pub fn draw(&self) -> (call: Option<GlCall>)
        requires
            self.wf(),
        ensures
            match call {
                Some(call) => self@.draw_call() == Some(call@),
                None => self@.draw_call().is_none(),
            },
    {
        let n = self.buffers.len();
        proof {
            self.buffers.lemma_listed();
        }
        if n == 0 {
            assert(self@.buffers.dom() =~= Set::<Seq<char>>::empty());
            return None;
        }
        let mut most: usize = self.buffers.value(0).vertices;
        let mut i: usize = 1;
        while i < n
            invariant
                1 <= i <= n,
                n == self.buffers.spec_len(),
                self.buffers.listed(),
                exists|j: int| 0 <= j < i && (#[trigger] self.buffers.value_at(j)).vertices == most,
                forall|j: int| 0 <= j < i ==> (#[trigger] self.buffers.value_at(j)).vertices <= most,
            decreases n - i,
        {
            let vertices = self.buffers.value(i).vertices;
            if vertices > most {
                most = vertices;
            }
            i += 1;
        }
        proof {
            let buffers = self@.buffers;
            let j = choose|j: int|
                0 <= j < n && (#[trigger] self.buffers.value_at(j)).vertices == most;
            assert(buffers.contains_key(self.buffers.name_at(j)));
            assert(buffers[self.buffers.name_at(j)].vertices == most);
            assert forall|name: Seq<char>| buffers.contains_key(name) implies (
            #[trigger] buffers[name]).vertices <= most by {
                let k = choose|k: int|
                    0 <= k < self.buffers.spec_len() && #[trigger] self.buffers.name_at(k) == name;
                assert(buffers[self.buffers.name_at(k)] == self.buffers.value_at(k));
            }
            lemma_largest(buffers, most);
            assert(buffers.dom().contains(self.buffers.name_at(j)));
        }
        let count: i32 = if most > 0x7fff_ffff {
            0x7fff_ffff
        } else {
            most as i32
        };
        Some(GlCall::DrawArrays { mode: self.drawmode.value(), first: 0, count })
    }

    /// Gives up everything the program owns, and hands back the calls that
    /// delete it: every buffer object once, in no stated order, then the
    /// vertex array object, then the shader's program. A program whose
    /// shader is disposed already stays as it is, and nothing is deleted.
    pub fn dispose(&mut self) -> (result: Result<Vec<GlCall>, ShaderError>)
        requires
            old(self).wf(),
        ensures
            final(self).wf(),
            match result {
                Ok(calls) => !old(self)@.shader.disposed && final(self)@ == old(self)@.disposed()
                    && exists|names: Seq<Seq<char>>|
                    #[trigger] lists_attributes(old(self)@.buffers, names) && call_views(calls@)
                        == old(self)@.dispose_calls(names),
                Err(error) => old(self)@.shader.disposed && final(self)@ == old(self)@ && error@
                    == Fault::DoubleDispose,
            },
    {
        let mut calls: Vec<GlCall> = Vec::new();
        let last = match self.shader.dispose() {
            Ok(call) => call,
            Err(error) => {
                return Err(error);
            },
        };
        let n = self.buffers.len();
        let ghost buffers = self.buffers;
        let ghost names = Seq::new(n as nat, |i: int| buffers.name_at(i));
        proof {
            buffers.lemma_listed();
        }
        let mut i: usize = 0;
        while i < n
            invariant
                i <= n,
                n == buffers.spec_len(),
                self.buffers == buffers,
                buffers.listed(),
                names == Seq::new(n as nat, |i: int| buffers.name_at(i)),
                call_views(calls@) == buffer_deletions(buffers@, names.take(i as int)),
            decreases n - i,
        {
            let buffer = self.buffers.value(i).buffer;
            let ghost ahead = call_views(calls@);
            calls.push(GlCall::DeleteBuffers { buffer });
            proof {
                let grown = buffer_deletions(buffers@, names.take(i + 1));
                assert(names[i as int] == buffers.name_at(i as int));
                assert(buffers@[buffers.name_at(i as int)] == buffers.value_at(i as int));
                assert(call_views(calls@) =~= ahead.push(Call::DeleteBuffers { buffer }));
                assert(grown.len() == i + 1);
                assert forall|k: int| 0 <= k < i + 1 implies call_views(calls@)[k] == grown[k] by {
                    assert(names.take(i + 1)[k] == names[k]);
                    if k < i {
                        assert(names.take(i as int)[k] == names[k]);
                        assert(ahead[k] == buffer_deletions(buffers@, names.take(i as int))[k]);
                    }
                }
                assert(call_views(calls@) =~= grown);
            }
            i += 1;
        }
        calls.push(GlCall::DeleteVertexArrays { array: self.vao });
        calls.push(last);
        self.buffers.clear();
        proof {
            assert(names.take(n as int) =~= names);
            assert(call_views(calls@) =~= old(self)@.dispose_calls(names));
            assert(names.no_duplicates());
            assert forall|name: Seq<char>| old(self)@.buffers.contains_key(name) <==> names.contains(
                name,
            ) by {
                if old(self)@.buffers.contains_key(name) {
                    let k = choose|k: int|
                        0 <= k < buffers.spec_len() && #[trigger] buffers.name_at(k) == name;
                    assert(names[k] == name);
                }
                if names.contains(name) {
                    let k = choose|k: int| 0 <= k < names.len() && names[k] == name;
                    assert(buffers@.contains_key(buffers.name_at(k)));
                }
            }
            assert(lists_attributes(old(self)@.buffers, names));
        }
        Ok(calls)
    }
}

} // verus!
