//! One linked GPU program and the uniforms that go with it.

pub mod builder;
pub mod error;
pub mod run;
pub mod source;
pub mod uniform_map;

use crate::graphics::command::{Call, GlCall, GlReply, Reply};
use crate::graphics::shader::builder::{begin, BuildStep, ShaderBuild, Step};
use crate::graphics::shader::error::{Fault, ShaderError};
use crate::graphics::shader::source::{lookup, ShaderRegistry};
use crate::graphics::shader::uniform_map::{inserted, UniformData, UniformKind, UniformMap, UniformValue};
use std::marker::PhantomData;
use vstd::prelude::*;
use vstd::slice::slice_to_vec;
use vstd::string::*;

verus! {

/// A linked program object, with the uniforms set on it.
///
/// `DataType` is the one type of uniform that the shader takes.
pub struct Shader<DataType: UniformData> {
    program: u32,
    phantom: PhantomData<DataType>,
    uniforms: UniformMap,
    disposed: bool,
}

/// A shader as contracts see it.
pub struct ShaderState {
    pub program: u32,
    pub uniforms: Map<Seq<char>, UniformValue>,
    pub disposed: bool,
}

impl<DataType: UniformData> View for Shader<DataType> {
    type V = ShaderState;

    closed spec fn view(&self) -> ShaderState {
        ShaderState { program: self.program, uniforms: self.uniforms@, disposed: self.disposed }
    }
}

impl ShaderState {
    /// A shader right after linking: live, and without uniforms.
    pub open spec fn linked(program: u32) -> ShaderState {
        ShaderState { program, uniforms: Map::empty(), disposed: false }
    }

    /// The shader after `dispose`.
    pub open spec fn disposed(self) -> ShaderState {
        ShaderState { disposed: true, ..self }
    }

    /// What `dispose` asks of the driver: the program is deleted once, by the
    /// first call.
    pub open spec fn dispose_call(self) -> Result<Call, Fault> {
        if self.disposed {
            Err(Fault::DoubleDispose)
        } else {
            Ok(Call::DeleteProgram { program: self.program })
        }
    }

    /// The shader after `set_uniform` on a shader declared with `declared`.
    pub open spec fn with_uniform(
        self,
        declared: UniformKind,
        name: Seq<char>,
        value: UniformValue,
    ) -> ShaderState {
        if value.spec_kind() == declared {
            ShaderState { uniforms: inserted(self.uniforms, name, value), ..self }
        } else {
            self
        }
    }

    /// What `set_uniform` reports.
    pub open spec fn uniform_report(
        self,
        declared: UniformKind,
        name: Seq<char>,
        value: UniformValue,
    ) -> Result<(), Fault> {
        if value.spec_kind() != declared {
            Err(Fault::UniformTypeMismatch)
        } else if self.uniforms.contains_key(name) {
            Err(Fault::UniformAlreadyExists { name })
        } else {
            Ok(())
        }
    }
}

/// Of two disposals the first deletes the program and the second deletes
/// nothing: it is refused, and the shader stays as the first left it.
pub proof fn lemma_second_dispose_deletes_nothing(shader: ShaderState)
    requires
        !shader.disposed,
    ensures
        shader.dispose_call() == Ok::<Call, Fault>(Call::DeleteProgram { program: shader.program }),
        shader.disposed().dispose_call() == Err::<Call, Fault>(Fault::DoubleDispose),
        shader.disposed().disposed() == shader.disposed(),
{
}

/// A disposed shader stays disposed, whatever is done with it.
pub proof fn lemma_disposed_is_final(
    shader: ShaderState,
    declared: UniformKind,
    name: Seq<char>,
    value: UniformValue,
)
    requires
        shader.disposed,
    ensures
        shader.disposed().disposed,
        shader.with_uniform(declared, name, value).disposed,
        shader.dispose_call() == Err::<Call, Fault>(Fault::DoubleDispose),
{
}

/// What construction starts with: both sources are looked up, the vertex
/// source first, and the first calls are handed out.
pub open spec fn start(
    files: Map<Seq<char>, Seq<u8>>,
    vertex_path: Seq<char>,
    fragment_path: Seq<char>,
) -> Result<Step, Fault> {
    match lookup(files, vertex_path) {
        Err(fault) => Err(fault),
        Ok(vertex_source) => match lookup(files, fragment_path) {
            Err(fault) => Err(fault),
            Ok(fragment_source) => Ok(begin(vertex_source, fragment_source)),
        },
    }
}

/// What `attrib_location` reads from an answer: the index, or -1 where the
/// answer holds none.
pub open spec fn location_in(reply: Reply) -> i32 {
    reply.value_or(-1i32)
}

/// The index that the driver answered an attribute lookup with.
pub fn attrib_location(reply: &GlReply) -> (location: i32)
    ensures
        location == location_in(reply@),
{
    reply.value_or(-1)
}

impl<DataType: UniformData> Shader<DataType> {
    pub closed spec fn wf(&self) -> bool {
        self.uniforms.wf()
    }

    /// Starts the construction of a shader from two sources of the registry.
    ///
    /// The result holds the first calls for the driver and the build that
    /// takes the answer; see [`ShaderBuild::step`]. No call is made where a
    /// source is missing.
    pub fn new(registry: &ShaderRegistry, vertex_path: &str, fragment_path: &str) -> (started:
        Result<BuildStep<DataType>, ShaderError>)
        requires
            registry.wf(),
        ensures
            match started {
                Ok(step) => start(registry@, vertex_path@, fragment_path@) == Ok::<Step, Fault>(
                    step@,
                ) && step.wf(),
                Err(error) => start(registry@, vertex_path@, fragment_path@) == Err::<
                    Step,
                    Fault,
                >(error@),
            },
    {
        let vertex_source = match registry.get(vertex_path) {
            Ok(source) => slice_to_vec(source.as_slice()),
            Err(error) => {
                return Err(error);
            },
        };
        let fragment_source = match registry.get(fragment_path) {
            Ok(source) => slice_to_vec(source.as_slice()),
            Err(error) => {
                return Err(error);
            },
        };
        Ok(ShaderBuild::begin(vertex_source, fragment_source))
    }

    /// The shader that a successful link leaves behind.
    pub(crate) fn linked(program: u32) -> (shader: Self)
        ensures
            shader.wf(),
            shader@ == ShaderState::linked(program),
    {
        Shader { program, phantom: PhantomData, uniforms: UniformMap::new(), disposed: false }
    }

    pub fn program(&self) -> (program: u32)
        ensures
            program == self@.program,
    {
        self.program
    }

    pub fn is_disposed(&self) -> (disposed: bool)
        ensures
            disposed == self@.disposed,
    {
        self.disposed
    }

    pub fn uniforms(&self) -> (uniforms: &UniformMap)
        requires
            self.wf(),
        ensures
            uniforms.wf(),
            uniforms@ == self@.uniforms,
    {
        &self.uniforms
    }

    /// The call that installs this program as the active one.
    pub fn useprogram(&self) -> (call: GlCall)
        ensures
            call@ == (Call::UseProgram { program: self@.program }),
    {
        GlCall::UseProgram { program: self.program }
    }

    /// The call that asks for the index of the attribute `name`. Its answer
    /// is read by [`attrib_location`].
    pub fn get_attrib_location(&self, name: &str) -> (call: GlCall)
        ensures
            call@ == (Call::GetAttribLocation {
                program: self@.program,
                name: name.spec_bytes().push(0),
            }),
    {
        let mut bytes = slice_to_vec(name.as_bytes());
        bytes.push(0);
        GlCall::GetAttribLocation { program: self.program, name: bytes }
    }

    /// Marks the shader disposed and hands back the call that deletes its
    /// program. A shader that is disposed already stays as it is.
    pub fn dispose(&mut self) -> (call: Result<GlCall, ShaderError>)
        requires
            old(self).wf(),
        ensures
            final(self).wf(),
            final(self)@ == old(self)@.disposed(),
            match call {
                Ok(call) => old(self)@.dispose_call() == Ok::<Call, Fault>(call@),
                Err(error) => old(self)@.dispose_call() == Err::<Call, Fault>(error@),
            },
    {
        if !self.disposed {
            self.disposed = true;
            Ok(GlCall::DeleteProgram { program: self.program })
        } else {
            Err(ShaderError::DoubleDispose)
        }
    }

    /// Stores `data` under `name` if it is of the shader's type and the name
    /// is free. Otherwise the shader stays as it is.
    pub fn set_uniform<T: UniformData>(&mut self, name: &str, data: T) -> (report: Result<
        (),
        ShaderError,
    >)
        requires
            old(self).wf(),
        ensures
            final(self).wf(),
            final(self)@ == old(self)@.with_uniform(
                DataType::spec_kind(),
                name@,
                data.spec_wrap(),
            ),
            match report {
                Ok(()) => old(self)@.uniform_report(DataType::spec_kind(), name@, data.spec_wrap())
                    == Ok::<(), Fault>(()),
                Err(error) => old(self)@.uniform_report(
                    DataType::spec_kind(),
                    name@,
                    data.spec_wrap(),
                ) == Err::<(), Fault>(error@),
            },
    {
        proof {
            T::lemma_wrap(data, data);
        }
        if T::kind() == DataType::kind() {
            self.uniforms.insert(name, data)
        } else {
            Err(ShaderError::UniformTypeMismatch)
        }
    }
}

} // verus!
