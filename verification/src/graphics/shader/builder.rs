//! The construction of a shader, one driver answer at a time.
//!
//! A build hands out a batch of calls and waits for the answer to the last
//! of them. [`ShaderBuild::step`] takes that answer and either hands out the
//! next batch or ends the build with a shader or an error. Whoever drives a
//! build makes every call of every batch, in order, the batch that ends the
//! build included.

use crate::graphics::command::{call_views, Call, GlCall, GlReply, Reply};
use crate::graphics::shader::error::{Fault, ShaderError};
use crate::graphics::shader::uniform_map::UniformData;
use crate::graphics::shader::{Shader, ShaderState};
use crate::graphics::utility::{
    compilation, create_shader, get_shader_info_log, info_log_or_empty, shader_source,
    ShaderStage, GL_FRAGMENT_SHADER, GL_INFO_LOG_LENGTH, GL_LINK_STATUS, GL_VERTEX_SHADER,
};
use std::marker::PhantomData;
use vstd::prelude::*;

verus! {

/// Where a build stands: the answer it waits for.
#[derive(Clone, Copy, Debug, PartialEq, Eq, Structural)]
pub enum BuildPhase {
    /// The handle of the stage's shader object.
    ShaderHandle(ShaderStage),
    /// The compile status of the stage.
    CompileStatus(ShaderStage),
    /// The length of the info log of the stage that failed to compile.
    CompileLogLength(ShaderStage),
    /// The info log of the stage that failed to compile.
    CompileLog(ShaderStage),
    /// The handle of the program object.
    ProgramHandle,
    /// The link status of the program.
    LinkStatus,
    /// The length of the info log of the program that failed to link.
    LinkLogLength,
    /// The info log of the program that failed to link.
    LinkLog,
}

/// A build as contracts see it.
pub struct BuildState {
    pub phase: BuildPhase,
    pub vertex_source: Seq<u8>,
    pub fragment_source: Seq<u8>,
    /// The vertex shader object; zero until the driver has named it.
    pub vertex_shader: u32,
    /// The fragment shader object; zero until the driver has named it.
    pub fragment_shader: u32,
    /// The program object; zero until the driver has named it.
    pub program: u32,
    /// The length of the info log that was asked for; zero otherwise.
    pub log_length: i32,
}

/// How a build goes on after an answer.
pub enum Next {
    /// The build waits for the answer to the last call of the batch.
    Await(BuildState),
    /// The build is over.
    Done(Result<ShaderState, Fault>),
}

/// One step of a build: the calls to make now, and how the build goes on.
pub struct Step {
    pub calls: Seq<Call>,
    pub next: Next,
}

/// The first step of every build: a vertex shader object is asked for.
pub open spec fn begin(vertex_source: Seq<u8>, fragment_source: Seq<u8>) -> Step {
    Step {
        calls: seq![Call::CreateShader { kind: GL_VERTEX_SHADER }],
        next: Next::Await(
            BuildState {
                phase: BuildPhase::ShaderHandle(ShaderStage::Vertex),
                vertex_source,
                fragment_source,
                vertex_shader: 0,
                fragment_shader: 0,
                program: 0,
                log_length: 0,
            },
        ),
    }
}

impl BuildState {
    pub open spec fn source(self, stage: ShaderStage) -> Seq<u8> {
        match stage {
            ShaderStage::Vertex => self.vertex_source,
            ShaderStage::Fragment => self.fragment_source,
        }
    }

    pub open spec fn shader(self, stage: ShaderStage) -> u32 {
        match stage {
            ShaderStage::Vertex => self.vertex_shader,
            ShaderStage::Fragment => self.fragment_shader,
        }
    }

    pub open spec fn with_shader(self, stage: ShaderStage, shader: u32) -> BuildState {
        match stage {
            ShaderStage::Vertex => BuildState { vertex_shader: shader, ..self },
            ShaderStage::Fragment => BuildState { fragment_shader: shader, ..self },
        }
    }

    pub open spec fn at(self, phase: BuildPhase) -> BuildState {
        BuildState { phase, ..self }
    }

    /// The calls that hand a stage to the compiler and ask how it went. The
    /// source goes out with a zero byte behind it.
    pub open spec fn compile(self, stage: ShaderStage) -> Seq<Call> {
        compilation(self.source(stage), self.shader(stage))
    }

    /// The calls that attach both stages, link, and ask how it went.
    pub open spec fn link(self) -> Seq<Call> {
        seq![
            Call::AttachShader { program: self.program, shader: self.vertex_shader },
            Call::AttachShader { program: self.program, shader: self.fragment_shader },
            Call::LinkProgram { program: self.program },
            Call::GetProgramiv { program: self.program, pname: GL_LINK_STATUS, initial: 1 },
        ]
    }

    /// The calls that delete the shader objects made up to a stage that
    /// failed to compile.
    pub open spec fn drop_shaders(self, failed: ShaderStage) -> Seq<Call> {
        match failed {
            ShaderStage::Vertex => seq![Call::DeleteShader { shader: self.vertex_shader }],
            ShaderStage::Fragment => seq![
                Call::DeleteShader { shader: self.vertex_shader },
                Call::DeleteShader { shader: self.fragment_shader },
            ],
        }
    }

    /// The calls that take both shader objects off the program and delete
    /// them.
    pub open spec fn detach_shaders(self) -> Seq<Call> {
        seq![
            Call::DetachShader { program: self.program, shader: self.vertex_shader },
            Call::DetachShader { program: self.program, shader: self.fragment_shader },
            Call::DeleteShader { shader: self.vertex_shader },
            Call::DeleteShader { shader: self.fragment_shader },
        ]
    }

    /// The calls that delete everything after a link that failed.
    pub open spec fn drop_program(self) -> Seq<Call> {
        self.detach_shaders().push(Call::DeleteProgram { program: self.program })
    }

    /// The end of a build whose stage failed to compile.
    pub open spec fn compile_failed(self, stage: ShaderStage, log: Seq<char>) -> Step {
        Step {
            calls: self.drop_shaders(stage),
            next: Next::Done(Err(Fault::ShaderCompileFailed { stage, log })),
        }
    }

    /// The end of a build whose program failed to link.
    pub open spec fn link_failed(self, log: Seq<char>) -> Step {
        Step { calls: self.drop_program(), next: Next::Done(Err(Fault::ShaderLinkFailed { log })) }
    }

    /// The step that a build takes on the driver's answer.
    ///
    /// A status of zero means failure. A status that the driver does not
    /// give counts as success, a log length that it does not give as zero.
    pub open spec fn step(self, reply: Reply) -> Step {
        match self.phase {
            BuildPhase::ShaderHandle(stage) => {
                let named = self.with_shader(stage, reply.handle());
                Step {
                    calls: named.compile(stage),
                    next: Next::Await(named.at(BuildPhase::CompileStatus(stage))),
                }
            },
            BuildPhase::CompileStatus(stage) => {
                if reply.value_or(1) == 0 {
                    Step {
                        calls: seq![
                            Call::GetShaderiv {
                                shader: self.shader(stage),
                                pname: GL_INFO_LOG_LENGTH,
                                initial: 0,
                            },
                        ],
                        next: Next::Await(self.at(BuildPhase::CompileLogLength(stage))),
                    }
                } else {
                    match stage {
                        ShaderStage::Vertex => Step {
                            calls: seq![Call::CreateShader { kind: GL_FRAGMENT_SHADER }],
                            next: Next::Await(
                                self.at(BuildPhase::ShaderHandle(ShaderStage::Fragment)),
                            ),
                        },
                        ShaderStage::Fragment => Step {
                            calls: seq![Call::CreateProgram],
                            next: Next::Await(self.at(BuildPhase::ProgramHandle)),
                        },
                    }
                }
            },
            BuildPhase::CompileLogLength(stage) => {
                let length = reply.value_or(0);
                if length > 0 {
                    Step {
                        calls: seq![
                            Call::GetShaderInfoLog {
                                shader: self.shader(stage),
                                capacity: length,
                            },
                        ],
                        next: Next::Await(
                            BuildState {
                                phase: BuildPhase::CompileLog(stage),
                                log_length: length,
                                ..self
                            },
                        ),
                    }
                } else {
                    self.compile_failed(stage, Seq::empty())
                }
            },
            BuildPhase::CompileLog(stage) => self.compile_failed(
                stage,
                info_log_or_empty(self.log_length, reply.bytes()),
            ),
            BuildPhase::ProgramHandle => {
                let named = BuildState { program: reply.handle(), ..self };
                Step { calls: named.link(), next: Next::Await(named.at(BuildPhase::LinkStatus)) }
            },
            BuildPhase::LinkStatus => {
                if reply.value_or(1) == 0 {
                    Step {
                        calls: seq![
                            Call::GetProgramiv {
                                program: self.program,
                                pname: GL_INFO_LOG_LENGTH,
                                initial: 0,
                            },
                        ],
                        next: Next::Await(self.at(BuildPhase::LinkLogLength)),
                    }
                } else {
                    Step {
                        calls: self.detach_shaders(),
                        next: Next::Done(Ok(ShaderState::linked(self.program))),
                    }
                }
            },
            BuildPhase::LinkLogLength => {
                let length = reply.value_or(0);
                if length > 0 {
                    Step {
                        calls: seq![
                            Call::GetProgramInfoLog { program: self.program, capacity: length },
                        ],
                        next: Next::Await(
                            BuildState { phase: BuildPhase::LinkLog, log_length: length, ..self },
                        ),
                    }
                } else {
                    self.link_failed(Seq::empty())
                }
            },
            BuildPhase::LinkLog => self.link_failed(
                info_log_or_empty(self.log_length, reply.bytes()),
            ),
        }
    }
}

/// A shader under construction.
pub struct ShaderBuild<DataType: UniformData> {
    phase: BuildPhase,
    vertex_source: Vec<u8>,
    fragment_source: Vec<u8>,
    vertex_shader: u32,
    fragment_shader: u32,
    program: u32,
    log_length: i32,
    phantom: PhantomData<DataType>,
}

impl<DataType: UniformData> View for ShaderBuild<DataType> {
    type V = BuildState;

    closed spec fn view(&self) -> BuildState {
        BuildState {
            phase: self.phase,
            vertex_source: self.vertex_source@,
            fragment_source: self.fragment_source@,
            vertex_shader: self.vertex_shader,
            fragment_shader: self.fragment_shader,
            program: self.program,
            log_length: self.log_length,
        }
    }
}

/// How a build goes on: it waits for an answer, or it is over.
pub enum BuildNext<DataType: UniformData> {
    Await(ShaderBuild<DataType>),
    Done(Result<Shader<DataType>, ShaderError>),
}

/// The calls to make now, and how the build goes on once they are made.
pub struct BuildStep<DataType: UniformData> {
    pub calls: Vec<GlCall>,
    pub next: BuildNext<DataType>,
}

impl<DataType: UniformData> View for BuildStep<DataType> {
    type V = Step;

    open spec fn view(&self) -> Step {
        Step {
            calls: call_views(self.calls@),
            next: match self.next {
                BuildNext::Await(build) => Next::Await(build@),
                BuildNext::Done(Ok(shader)) => Next::Done(Ok(shader@)),
                BuildNext::Done(Err(error)) => Next::Done(Err(error@)),
            },
        }
    }
}

impl<DataType: UniformData> BuildStep<DataType> {
    /// A shader that the step ends with is well formed.
    pub open spec fn wf(&self) -> bool {
        match self.next {
            BuildNext::Done(Ok(shader)) => shader.wf(),
            _ => true,
        }
    }
}

impl<DataType: UniformData> ShaderBuild<DataType> {
    /// The first step of a build from the two sources.
    pub fn begin(vertex_source: Vec<u8>, fragment_source: Vec<u8>) -> (step: BuildStep<DataType>)
        ensures
            step.wf(),
            step@ == begin(vertex_source@, fragment_source@),
    {
        let calls = Self::one(create_shader(GL_VERTEX_SHADER));
        let build = ShaderBuild {
            phase: BuildPhase::ShaderHandle(ShaderStage::Vertex),
            vertex_source,
            fragment_source,
            vertex_shader: 0,
            fragment_shader: 0,
            program: 0,
            log_length: 0,
            phantom: PhantomData,
        };
        let step = BuildStep { calls, next: BuildNext::Await(build) };
        assert(step@.calls =~= begin(vertex_source@, fragment_source@).calls);
        step
    }

    /// The answer that the build waits for.
    pub fn phase(&self) -> (phase: BuildPhase)
        ensures
            phase == self@.phase,
    {
        self.phase
    }

    fn shader(&self, stage: ShaderStage) -> (shader: u32)
        ensures
            shader == self@.shader(stage),
    {
        match stage {
            ShaderStage::Vertex => self.vertex_shader,
            ShaderStage::Fragment => self.fragment_shader,
        }
    }

    fn compile(&self, stage: ShaderStage) -> (calls: Vec<GlCall>)
        ensures
            call_views(calls@) == self@.compile(stage),
    {
        let shader = self.shader(stage);
        match stage {
            ShaderStage::Vertex => shader_source(self.vertex_source.as_slice(), shader),
            ShaderStage::Fragment => shader_source(self.fragment_source.as_slice(), shader),
        }
    }

    fn link(&self) -> (calls: Vec<GlCall>)
        ensures
            call_views(calls@) == self@.link(),
    {
        let program = self.program;
        let mut calls: Vec<GlCall> = Vec::new();
        calls.push(GlCall::AttachShader { program, shader: self.vertex_shader });
        calls.push(GlCall::AttachShader { program, shader: self.fragment_shader });
        calls.push(GlCall::LinkProgram { program });
        calls.push(GlCall::GetProgramiv { program, pname: GL_LINK_STATUS, initial: 1 });
        assert(call_views(calls@) =~= self@.link());
        calls
    }

    fn drop_shaders(&self, failed: ShaderStage) -> (calls: Vec<GlCall>)
        ensures
            call_views(calls@) == self@.drop_shaders(failed),
    {
        let mut calls: Vec<GlCall> = Vec::new();
        calls.push(GlCall::DeleteShader { shader: self.vertex_shader });
        match failed {
            ShaderStage::Vertex => {},
            ShaderStage::Fragment => {
                calls.push(GlCall::DeleteShader { shader: self.fragment_shader });
            },
        }
        assert(call_views(calls@) =~= self@.drop_shaders(failed));
        calls
    }

    fn detach_shaders(&self) -> (calls: Vec<GlCall>)
        ensures
            call_views(calls@) == self@.detach_shaders(),
    {
        let program = self.program;
        let mut calls: Vec<GlCall> = Vec::new();
        calls.push(GlCall::DetachShader { program, shader: self.vertex_shader });
        calls.push(GlCall::DetachShader { program, shader: self.fragment_shader });
        calls.push(GlCall::DeleteShader { shader: self.vertex_shader });
        calls.push(GlCall::DeleteShader { shader: self.fragment_shader });
        assert(call_views(calls@) =~= self@.detach_shaders());
        calls
    }

    fn drop_program(&self) -> (calls: Vec<GlCall>)
        ensures
            call_views(calls@) == self@.drop_program(),
    {
        let mut calls = self.detach_shaders();
        calls.push(GlCall::DeleteProgram { program: self.program });
        assert(call_views(calls@) =~= self@.drop_program());
        calls
    }

    fn one(call: GlCall) -> (calls: Vec<GlCall>)
        ensures
            call_views(calls@) == seq![call@],
    {
        let mut calls: Vec<GlCall> = Vec::new();
        calls.push(call);
        assert(call_views(calls@) =~= seq![call@]);
        calls
    }

    fn compile_failed(self, stage: ShaderStage, log: String) -> (step: BuildStep<DataType>)
        ensures
            step.wf(),
            step@ == self@.compile_failed(stage, log@),
    {
        BuildStep {
            calls: self.drop_shaders(stage),
            next: BuildNext::Done(Err(ShaderError::ShaderCompileFailed { stage, log })),
        }
    }

    fn link_failed(self, log: String) -> (step: BuildStep<DataType>)
        ensures
            step.wf(),
            step@ == self@.link_failed(log@),
    {
        BuildStep {
            calls: self.drop_program(),
            next: BuildNext::Done(Err(ShaderError::ShaderLinkFailed { log })),
        }
    }

    fn log_text(&self, reply: GlReply) -> (log: String)
        ensures
            log@ == info_log_or_empty(self@.log_length, reply@.bytes()),
    {
        let buffer = reply.into_bytes();
        match get_shader_info_log(self.log_length, &buffer) {
            Some(text) => text,
            None => String::new(),
        }
    }

    /// Takes the driver's answer to the last call of the batch handed out
    /// before, and goes on with the build.
    pub fn step(self, reply: GlReply) -> (step: BuildStep<DataType>)
        ensures
            step.wf(),
            step@ == self@.step(reply@),
    {
        let mut build = self;
        match build.phase {
            BuildPhase::ShaderHandle(stage) => {
                match stage {
                    ShaderStage::Vertex => {
                        build.vertex_shader = reply.handle();
                    },
                    ShaderStage::Fragment => {
                        build.fragment_shader = reply.handle();
                    },
                }
                let calls = build.compile(stage);
                build.phase = BuildPhase::CompileStatus(stage);
                BuildStep { calls, next: BuildNext::Await(build) }
            },
            BuildPhase::CompileStatus(stage) => {
                if reply.value_or(1) == 0 {
                    let calls = Self::one(
                        GlCall::GetShaderiv {
                            shader: build.shader(stage),
                            pname: GL_INFO_LOG_LENGTH,
                            initial: 0,
                        },
                    );
                    build.phase = BuildPhase::CompileLogLength(stage);
                    BuildStep { calls, next: BuildNext::Await(build) }
                } else {
                    match stage {
                        ShaderStage::Vertex => {
                            let calls = Self::one(create_shader(GL_FRAGMENT_SHADER));
                            build.phase = BuildPhase::ShaderHandle(ShaderStage::Fragment);
                            BuildStep { calls, next: BuildNext::Await(build) }
                        },
                        ShaderStage::Fragment => {
                            let calls = Self::one(GlCall::CreateProgram);
                            build.phase = BuildPhase::ProgramHandle;
                            BuildStep { calls, next: BuildNext::Await(build) }
                        },
                    }
                }
            },
            BuildPhase::CompileLogLength(stage) => {
                let length = reply.value_or(0);
                if length > 0 {
                    let calls = Self::one(
                        GlCall::GetShaderInfoLog { shader: build.shader(stage), capacity: length },
                    );
                    build.phase = BuildPhase::CompileLog(stage);
                    build.log_length = length;
                    BuildStep { calls, next: BuildNext::Await(build) }
                } else {
                    build.compile_failed(stage, String::new())
                }
            },
            BuildPhase::CompileLog(stage) => {
                let log = build.log_text(reply);
                build.compile_failed(stage, log)
            },
            BuildPhase::ProgramHandle => {
                build.program = reply.handle();
                let calls = build.link();
                build.phase = BuildPhase::LinkStatus;
                BuildStep { calls, next: BuildNext::Await(build) }
            },
            BuildPhase::LinkStatus => {
                if reply.value_or(1) == 0 {
                    let calls = Self::one(
                        GlCall::GetProgramiv {
                            program: build.program,
                            pname: GL_INFO_LOG_LENGTH,
                            initial: 0,
                        },
                    );
                    build.phase = BuildPhase::LinkLogLength;
                    BuildStep { calls, next: BuildNext::Await(build) }
                } else {
                    let calls = build.detach_shaders();
                    BuildStep {
                        calls,
                        next: BuildNext::Done(Ok(Shader::linked(build.program))),
                    }
                }
            },
            BuildPhase::LinkLogLength => {
                let length = reply.value_or(0);
                if length > 0 {
                    let calls = Self::one(
                        GlCall::GetProgramInfoLog { program: build.program, capacity: length },
                    );
                    build.phase = BuildPhase::LinkLog;
                    build.log_length = length;
                    BuildStep { calls, next: BuildNext::Await(build) }
                } else {
                    build.link_failed(String::new())
                }
            },
            BuildPhase::LinkLog => {
                let log = build.log_text(reply);
                build.link_failed(log)
            },
        }
    }
}

} // verus!
