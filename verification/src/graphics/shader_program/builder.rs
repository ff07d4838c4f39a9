//! The construction of a shader program: the shader first, then the vertex
//! array object.

use crate::graphics::command::{call_views, Call, GlCall, GlReply, Reply};
use crate::graphics::name_map::NameMap;
use crate::graphics::shader::builder::{BuildNext, BuildState, BuildStep, Next, ShaderBuild, Step};
use crate::graphics::shader::error::{Fault, ShaderError};
use crate::graphics::shader::uniform_map::UniformData;
use crate::graphics::shader::{start, Shader, ShaderState};
use crate::graphics::shader_program::{shader_program, ProgramState};
use crate::graphics::utility::{gen_vertex_array, GL_DataType, GL_DrawMode};
use vstd::prelude::*;

verus! {

/// Where the construction of a program stands.
pub enum ProgramStage {
    /// The shader is under construction.
    Shader(BuildState),
    /// The shader is linked; the vertex array object was asked for.
    VertexArray(ShaderState),
}

/// The construction of a program as contracts see it.
pub struct ProgramBuildState {
    pub drawmode: GL_DrawMode,
    pub stage: ProgramStage,
}

/// How the construction of a program goes on after an answer.
pub enum ProgramNext {
    Await(ProgramBuildState),
    Done(Result<ProgramState, Fault>),
}

/// One step of the construction of a program.
pub struct ProgramStep {
    pub calls: Seq<Call>,
    pub next: ProgramNext,
}

/// A step of the shader's construction as a step of the program's: once the
/// shader is linked, a vertex array object is asked for.
pub open spec fn lift(drawmode: GL_DrawMode, step: Step) -> ProgramStep {
    match step.next {
        Next::Await(build) => ProgramStep {
            calls: step.calls,
            next: ProgramNext::Await(
                ProgramBuildState { drawmode, stage: ProgramStage::Shader(build) },
            ),
        },
        Next::Done(Ok(shader)) => ProgramStep {
            calls: step.calls.push(Call::GenVertexArrays),
            next: ProgramNext::Await(
                ProgramBuildState { drawmode, stage: ProgramStage::VertexArray(shader) },
            ),
        },
        Next::Done(Err(fault)) => ProgramStep {
            calls: step.calls,
            next: ProgramNext::Done(Err(fault)),
        },
    }
}

impl ProgramBuildState {
    /// The step that the construction takes on the driver's answer.
    pub open spec fn step(self, reply: Reply) -> ProgramStep {
        match self.stage {
            ProgramStage::Shader(build) => lift(self.drawmode, build.step(reply)),
            ProgramStage::VertexArray(shader) => ProgramStep {
                calls: Seq::empty(),
                next: ProgramNext::Done(
                    Ok(ProgramState::fresh(shader, reply.handle(), self.drawmode)),
                ),
            },
        }
    }
}

/// What the construction of a program starts with.
pub open spec fn start_program(
    files: Map<Seq<char>, Seq<u8>>,
    vertex_path: Seq<char>,
    fragment_path: Seq<char>,
    drawmode: GL_DrawMode,
) -> Result<ProgramStep, Fault> {
    match start(files, vertex_path, fragment_path) {
        Ok(step) => Ok(lift(drawmode, step)),
        Err(fault) => Err(fault),
    }
}

enum Stage<DataType: UniformData> {
    Shader(ShaderBuild<DataType>),
    VertexArray(Shader<DataType>),
}

/// A shader program under construction.
pub struct ProgramBuild<DataType: GL_DataType + UniformData> {
    drawmode: GL_DrawMode,
    stage: Stage<DataType>,
}

impl<DataType: GL_DataType + UniformData> View for ProgramBuild<DataType> {
    type V = ProgramBuildState;

    closed spec fn view(&self) -> ProgramBuildState {
        ProgramBuildState {
            drawmode: self.drawmode,
            stage: match self.stage {
                Stage::Shader(build) => ProgramStage::Shader(build@),
                Stage::VertexArray(shader) => ProgramStage::VertexArray(shader@),
            },
        }
    }
}

/// How the construction of a program goes on: it waits for an answer, or it
/// is over.
pub enum ProgramBuildNext<DataType: GL_DataType + UniformData> {
    Await(ProgramBuild<DataType>),
    Done(Result<shader_program<DataType>, ShaderError>),
}

/// The calls to make now, and how the construction goes on once they are
/// made.
pub struct ProgramBuildStep<DataType: GL_DataType + UniformData> {
    pub calls: Vec<GlCall>,
    pub next: ProgramBuildNext<DataType>,
}

impl<DataType: GL_DataType + UniformData> View for ProgramBuildStep<DataType> {
    type V = ProgramStep;

    open spec fn view(&self) -> ProgramStep {
        ProgramStep {
            calls: call_views(self.calls@),
            next: match self.next {
                ProgramBuildNext::Await(build) => ProgramNext::Await(build@),
                ProgramBuildNext::Done(Ok(program)) => ProgramNext::Done(Ok(program@)),
                ProgramBuildNext::Done(Err(error)) => ProgramNext::Done(Err(error@)),
            },
        }
    }
}

impl<DataType: GL_DataType + UniformData> ProgramBuildStep<DataType> {
    /// Whatever the step holds is well formed.
    pub open spec fn wf(&self) -> bool {
        match self.next {
            ProgramBuildNext::Await(build) => build.wf(),
            ProgramBuildNext::Done(Ok(program)) => program.wf(),
            ProgramBuildNext::Done(Err(_)) => true,
        }
    }
}

impl<DataType: GL_DataType + UniformData> ProgramBuild<DataType> {
    pub closed spec fn wf(&self) -> bool {
        match self.stage {
            Stage::Shader(_) => true,
            Stage::VertexArray(shader) => shader.wf(),
        }
    }

    pub(crate) fn lift(drawmode: GL_DrawMode, step: BuildStep<DataType>) -> (lifted:
        ProgramBuildStep<DataType>)
        requires
            step.wf(),
        ensures
            lifted.wf(),
            lifted@ == lift(drawmode, step@),
    {
        let BuildStep { calls, next } = step;
        match next {
            BuildNext::Await(build) => ProgramBuildStep {
                calls,
                next: ProgramBuildNext::Await(ProgramBuild { drawmode, stage: Stage::Shader(build) }),
            },
            BuildNext::Done(Ok(shader)) => {
                let mut calls = calls;
                calls.push(gen_vertex_array());
                assert(call_views(calls@) =~= step@.calls.push(Call::GenVertexArrays));
                ProgramBuildStep {
                    calls,
                    next: ProgramBuildNext::Await(
                        ProgramBuild { drawmode, stage: Stage::VertexArray(shader) },
                    ),
                }
            },
            BuildNext::Done(Err(error)) => ProgramBuildStep {
                calls,
                next: ProgramBuildNext::Done(Err(error)),
            },
        }
    }

    /// Takes the driver's answer to the last call of the batch handed out
    /// before, and goes on with the construction.
    pub fn step(self, reply: GlReply) -> (step: ProgramBuildStep<DataType>)
        requires
            self.wf(),
        ensures
            step.wf(),
            step@ == self@.step(reply@),
    {
        let ProgramBuild { drawmode, stage } = self;
        match stage {
            Stage::Shader(build) => Self::lift(drawmode, build.step(reply)),
            Stage::VertexArray(shader) => {
                let calls: Vec<GlCall> = Vec::new();
                assert(call_views(calls@) =~= Seq::<Call>::empty());
                ProgramBuildStep {
                    calls,
                    next: ProgramBuildNext::Done(
                        Ok(
                            shader_program {
                                shader,
                                vao: reply.handle(),
                                drawmode,
                                buffers: NameMap::new(),
                            },
                        ),
                    ),
                }
            },
        }
    }
}

} // verus!
