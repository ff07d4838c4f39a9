use glfwproject::graphics::command::{GlCall, GlReply};
use glfwproject::graphics::shader::builder::{BuildNext, BuildPhase, BuildStep};
use glfwproject::graphics::shader::error::ShaderError;
use glfwproject::graphics::shader::source::ShaderRegistry;
use glfwproject::graphics::shader::{attrib_location, Shader};
use glfwproject::graphics::shader_program::builder::{ProgramBuildNext, ProgramBuildStep};
use glfwproject::graphics::shader_program::{shader_program, AttributeBuffer};
use glfwproject::graphics::utility::{FloatBits, GL_DrawMode, ShaderStage};

/// A driver that allocates handles, keeps count of what lives, and records
/// every call.
struct MockGl {
    calls: Vec<GlCall>,
    next_handle: u32,
    shaders: Vec<(u32, u32)>,
    programs: Vec<u32>,
    arrays: Vec<u32>,
    buffers: Vec<u32>,
    vertex_status: i32,
    fragment_status: i32,
    link_status: i32,
    compile_log: Vec<u8>,
    link_log: Vec<u8>,
}

impl MockGl {
    fn new() -> MockGl {
        MockGl {
            calls: Vec::new(),
            next_handle: 1,
            shaders: Vec::new(),
            programs: Vec::new(),
            arrays: Vec::new(),
            buffers: Vec::new(),
            vertex_status: 1,
            fragment_status: 1,
            link_status: 1,
            compile_log: Vec::new(),
            link_log: Vec::new(),
        }
    }

    fn fresh(&mut self) -> u32 {
        let handle = self.next_handle;
        self.next_handle += 1;
        handle
    }

    fn live(&self) -> usize {
        self.shaders.len() + self.programs.len() + self.arrays.len() + self.buffers.len()
    }

    fn fill(log: &[u8], capacity: i32) -> Vec<u8> {
        let mut buffer = vec![0u8; capacity as usize];
        let room = buffer.len().saturating_sub(1).min(log.len());
        buffer[..room].copy_from_slice(&log[..room]);
        buffer
    }

    fn perform(&mut self, call: &GlCall) -> GlReply {
        self.calls.push(call.clone());
        match call {
            GlCall::CreateShader { kind } => {
                let handle = self.fresh();
                self.shaders.push((handle, *kind));
                GlReply::Handle(handle)
            }
            GlCall::CreateProgram => {
                let handle = self.fresh();
                self.programs.push(handle);
                GlReply::Handle(handle)
            }
            GlCall::GenVertexArrays => {
                let handle = self.fresh();
                self.arrays.push(handle);
                GlReply::Handle(handle)
            }
            GlCall::GenBuffers => {
                let handle = self.fresh();
                self.buffers.push(handle);
                GlReply::Handle(handle)
            }
            GlCall::GetShaderiv { shader, pname, initial } => {
                let kind = self.shaders.iter().find(|(handle, _)| handle == shader).map(|s| s.1);
                match (kind, *pname) {
                    (Some(gl::VERTEX_SHADER), gl::COMPILE_STATUS) => {
                        GlReply::Value(self.vertex_status)
                    }
                    (Some(gl::FRAGMENT_SHADER), gl::COMPILE_STATUS) => {
                        GlReply::Value(self.fragment_status)
                    }
                    (Some(_), gl::INFO_LOG_LENGTH) => {
                        if self.compile_log.is_empty() {
                            GlReply::Value(0)
                        } else {
                            GlReply::Value(self.compile_log.len() as i32 + 1)
                        }
                    }
                    _ => GlReply::Value(*initial),
                }
            }
            GlCall::GetProgramiv { program, pname, initial } => {
                match (self.programs.contains(program), *pname) {
                    (true, gl::LINK_STATUS) => GlReply::Value(self.link_status),
                    (true, gl::INFO_LOG_LENGTH) => {
                        if self.link_log.is_empty() {
                            GlReply::Value(0)
                        } else {
                            GlReply::Value(self.link_log.len() as i32 + 1)
                        }
                    }
                    _ => GlReply::Value(*initial),
                }
            }
            GlCall::GetShaderInfoLog { capacity, .. } => {
                GlReply::Bytes(MockGl::fill(&self.compile_log, *capacity))
            }
            GlCall::GetProgramInfoLog { capacity, .. } => {
                GlReply::Bytes(MockGl::fill(&self.link_log, *capacity))
            }
            GlCall::DeleteShader { shader } => {
                self.shaders.retain(|(handle, _)| handle != shader);
                GlReply::Nothing
            }
            GlCall::DeleteProgram { program } => {
                self.programs.retain(|handle| handle != program);
                GlReply::Nothing
            }
            GlCall::DeleteVertexArrays { array } => {
                self.arrays.retain(|handle| handle != array);
                GlReply::Nothing
            }
            GlCall::DeleteBuffers { buffer } => {
                self.buffers.retain(|handle| handle != buffer);
                GlReply::Nothing
            }
            GlCall::GetAttribLocation { name, .. } => {
                if name.as_slice() == b"aPosition\0" {
                    GlReply::Value(0)
                } else {
                    GlReply::Value(-1)
                }
            }
            _ => GlReply::Nothing,
        }
    }

    fn perform_all(&mut self, calls: &[GlCall]) -> GlReply {
        let mut last = GlReply::Nothing;
        for call in calls {
            last = self.perform(call);
        }
        last
    }

    fn count(&self, wanted: fn(&GlCall) -> bool) -> usize {
        self.calls.iter().filter(|call| wanted(call)).count()
    }

    fn build_shader(
        &mut self,
        first: BuildStep<FloatBits>,
    ) -> Result<Shader<FloatBits>, ShaderError> {
        let mut step = first;
        loop {
            let reply = self.perform_all(&step.calls);
            match step.next {
                BuildNext::Done(result) => return result,
                BuildNext::Await(build) => step = build.step(reply),
            }
        }
    }

    fn build_program(
        &mut self,
        first: ProgramBuildStep<FloatBits>,
    ) -> Result<shader_program<FloatBits>, ShaderError> {
        let mut step = first;
        loop {
            let reply = self.perform_all(&step.calls);
            match step.next {
                ProgramBuildNext::Done(result) => return result,
                ProgramBuildNext::Await(build) => step = build.step(reply),
            }
        }
    }
}

const PASS_VERT: &[u8] = b"void main(){ gl_Position=vec4(0); }";
const PASS_FRAG: &[u8] = b"void main(){ }";

fn registry() -> ShaderRegistry {
    let mut registry = ShaderRegistry::new();
    registry.register("pass.vert", PASS_VERT.to_vec());
    registry.register("pass.frag", PASS_FRAG.to_vec());
    registry
}

fn terminated(source: &[u8]) -> Vec<u8> {
    let mut bytes = source.to_vec();
    bytes.push(0);
    bytes
}

fn floats(values: &[f32]) -> Vec<FloatBits> {
    values.iter().map(|value| FloatBits(value.to_bits())).collect()
}

fn program(gl: &mut MockGl, drawmode: GL_DrawMode) -> shader_program<FloatBits> {
    let first = shader_program::new(&registry(), "pass.vert", "pass.frag", drawmode).unwrap();
    gl.build_program(first).unwrap()
}

fn set_array(
    gl: &mut MockGl,
    program: &mut shader_program<FloatBits>,
    name: &str,
    position: u32,
    datasize: i32,
    data: &[f32],
) {
    let (upload, ask) = program.set_array(name.to_string(), position, datasize, &floats(data));
    let reply = gl.perform(&ask);
    let calls = program.store_array(upload, &reply);
    gl.perform_all(&calls);
}

#[test]
fn compile_and_link_success() {
    let mut gl = MockGl::new();
    let first = Shader::<FloatBits>::new(&registry(), "pass.vert", "pass.frag").unwrap();
    let shader = gl.build_shader(first).unwrap();
    assert_eq!(gl.count(|call| matches!(call, GlCall::CreateShader { .. })), 2);
    assert_eq!(gl.count(|call| matches!(call, GlCall::ShaderSource { .. })), 2);
    assert_eq!(gl.count(|call| matches!(call, GlCall::CompileShader { .. })), 2);
    assert_eq!(gl.count(|call| matches!(call, GlCall::CreateProgram)), 1);
    assert_eq!(gl.count(|call| matches!(call, GlCall::AttachShader { .. })), 2);
    assert_eq!(gl.count(|call| matches!(call, GlCall::LinkProgram { .. })), 1);
    assert_eq!(gl.count(|call| matches!(call, GlCall::DetachShader { .. })), 2);
    assert_eq!(gl.count(|call| matches!(call, GlCall::DeleteShader { .. })), 2);
    assert_eq!(gl.count(|call| matches!(call, GlCall::DeleteProgram { .. })), 0);
    assert!(!shader.is_disposed());
    assert_eq!(gl.programs, vec![3]);
    assert_eq!(shader.program(), 3);
    assert!(gl.shaders.is_empty());
    assert!(!shader.uniforms().contains("k"));
}

#[test]
fn compile_and_link_success_makes_these_calls_in_this_order() {
    let mut gl = MockGl::new();
    let first = Shader::<FloatBits>::new(&registry(), "pass.vert", "pass.frag").unwrap();
    gl.build_shader(first).unwrap();
    let expected = vec![
        GlCall::CreateShader { kind: gl::VERTEX_SHADER },
        GlCall::ShaderSource { shader: 1, source: terminated(PASS_VERT) },
        GlCall::CompileShader { shader: 1 },
        GlCall::GetShaderiv { shader: 1, pname: gl::COMPILE_STATUS, initial: 1 },
        GlCall::CreateShader { kind: gl::FRAGMENT_SHADER },
        GlCall::ShaderSource { shader: 2, source: terminated(PASS_FRAG) },
        GlCall::CompileShader { shader: 2 },
        GlCall::GetShaderiv { shader: 2, pname: gl::COMPILE_STATUS, initial: 1 },
        GlCall::CreateProgram,
        GlCall::AttachShader { program: 3, shader: 1 },
        GlCall::AttachShader { program: 3, shader: 2 },
        GlCall::LinkProgram { program: 3 },
        GlCall::GetProgramiv { program: 3, pname: gl::LINK_STATUS, initial: 1 },
        GlCall::DetachShader { program: 3, shader: 1 },
        GlCall::DetachShader { program: 3, shader: 2 },
        GlCall::DeleteShader { shader: 1 },
        GlCall::DeleteShader { shader: 2 },
    ];
    assert_eq!(gl.calls, expected);
}

#[test]
fn vertex_compile_failure() {
    let mut gl = MockGl::new();
    gl.vertex_status = 0;
    gl.compile_log = b"E: bad syntax".to_vec();
    let first = Shader::<FloatBits>::new(&registry(), "pass.vert", "pass.frag").unwrap();
    let result = gl.build_shader(first);
    assert_eq!(
        result.err(),
        Some(ShaderError::ShaderCompileFailed {
            stage: ShaderStage::Vertex,
            log: "E: bad syntax".to_string(),
        })
    );
    assert!(gl.programs.is_empty());
    assert!(gl.shaders.is_empty());
    assert_eq!(gl.live(), 0);
    assert_eq!(gl.count(|call| matches!(call, GlCall::CreateProgram)), 0);
    assert_eq!(gl.count(|call| matches!(call, GlCall::CreateShader { .. })), 1);
    assert_eq!(
        gl.calls[4..].to_vec(),
        vec![
            GlCall::GetShaderiv { shader: 1, pname: gl::INFO_LOG_LENGTH, initial: 0 },
            GlCall::GetShaderInfoLog { shader: 1, capacity: 14 },
            GlCall::DeleteShader { shader: 1 },
        ]
    );
}

#[test]
fn fragment_compile_failure() {
    let mut gl = MockGl::new();
    gl.fragment_status = 0;
    gl.compile_log = b"0:1: unexpected token".to_vec();
    let first = Shader::<FloatBits>::new(&registry(), "pass.vert", "pass.frag").unwrap();
    let result = gl.build_shader(first);
    assert_eq!(
        result.err(),
        Some(ShaderError::ShaderCompileFailed {
            stage: ShaderStage::Fragment,
            log: "0:1: unexpected token".to_string(),
        })
    );
    assert_eq!(gl.live(), 0);
    assert_eq!(gl.count(|call| matches!(call, GlCall::CreateShader { .. })), 2);
    assert_eq!(gl.count(|call| matches!(call, GlCall::DeleteShader { .. })), 2);
    assert_eq!(gl.count(|call| matches!(call, GlCall::CreateProgram)), 0);
}

#[test]
fn compile_failure_without_a_log() {
    let mut gl = MockGl::new();
    gl.vertex_status = 0;
    let first = Shader::<FloatBits>::new(&registry(), "pass.vert", "pass.frag").unwrap();
    let result = gl.build_shader(first);
    assert_eq!(
        result.err(),
        Some(ShaderError::ShaderCompileFailed { stage: ShaderStage::Vertex, log: String::new() })
    );
    assert_eq!(gl.count(|call| matches!(call, GlCall::GetShaderInfoLog { .. })), 0);
    assert_eq!(gl.live(), 0);
}

#[test]
fn link_failure() {
    let mut gl = MockGl::new();
    gl.link_status = 0;
    gl.link_log = b"E: missing main".to_vec();
    let first = Shader::<FloatBits>::new(&registry(), "pass.vert", "pass.frag").unwrap();
    let result = gl.build_shader(first);
    assert_eq!(
        result.err(),
        Some(ShaderError::ShaderLinkFailed { log: "E: missing main".to_string() })
    );
    assert!(gl.shaders.is_empty());
    assert!(gl.programs.is_empty());
    assert_eq!(gl.live(), 0);
    assert_eq!(
        gl.calls[13..].to_vec(),
        vec![
            GlCall::GetProgramiv { program: 3, pname: gl::INFO_LOG_LENGTH, initial: 0 },
            GlCall::GetProgramInfoLog { program: 3, capacity: 16 },
            GlCall::DetachShader { program: 3, shader: 1 },
            GlCall::DetachShader { program: 3, shader: 2 },
            GlCall::DeleteShader { shader: 1 },
            GlCall::DeleteShader { shader: 2 },
            GlCall::DeleteProgram { program: 3 },
        ]
    );
}

#[test]
fn link_failure_without_a_log() {
    let mut gl = MockGl::new();
    gl.link_status = 0;
    let first = Shader::<FloatBits>::new(&registry(), "pass.vert", "pass.frag").unwrap();
    let result = gl.build_shader(first);
    assert_eq!(result.err(), Some(ShaderError::ShaderLinkFailed { log: String::new() }));
    assert_eq!(gl.count(|call| matches!(call, GlCall::GetProgramInfoLog { .. })), 0);
    assert_eq!(gl.live(), 0);
}

#[test]
fn missing_sources_fail_before_any_call() {
    let registry = registry();
    let vertex = Shader::<FloatBits>::new(&registry, "none.vert", "pass.frag");
    assert_eq!(
        vertex.err().map(|error| error.message()),
        Some("Could not get file none.vert".to_string())
    );
    let fragment = Shader::<FloatBits>::new(&registry, "pass.vert", "none.frag");
    assert!(matches!(
        fragment,
        Err(ShaderError::AssetMissing { ref path }) if path == "none.frag"
    ));
    let both = Shader::<FloatBits>::new(&registry, "none.vert", "none.frag");
    assert!(matches!(
        both,
        Err(ShaderError::AssetMissing { ref path }) if path == "none.vert"
    ));
    let program = shader_program::<FloatBits>::new(
        &registry,
        "pass.vert",
        "none.frag",
        GL_DrawMode::TRIANGLES,
    );
    assert!(matches!(
        program,
        Err(ShaderError::AssetMissing { ref path }) if path == "none.frag"
    ));
}

#[test]
fn the_first_step_asks_for_a_vertex_shader() {
    let first = Shader::<FloatBits>::new(&registry(), "pass.vert", "pass.frag").unwrap();
    assert_eq!(first.calls, vec![GlCall::CreateShader { kind: gl::VERTEX_SHADER }]);
    match first.next {
        BuildNext::Await(build) => {
            assert_eq!(build.phase(), BuildPhase::ShaderHandle(ShaderStage::Vertex))
        }
        BuildNext::Done(_) => panic!("the build ended before it began"),
    }
}

#[test]
fn answers_of_another_kind_read_as_no_answer() {
    let first = Shader::<FloatBits>::new(&registry(), "pass.vert", "pass.frag").unwrap();
    let build = match first.next {
        BuildNext::Await(build) => build,
        BuildNext::Done(_) => panic!("the build ended before it began"),
    };
    let step = build.step(GlReply::Nothing);
    assert_eq!(
        step.calls,
        vec![
            GlCall::ShaderSource { shader: 0, source: terminated(PASS_VERT) },
            GlCall::CompileShader { shader: 0 },
            GlCall::GetShaderiv { shader: 0, pname: gl::COMPILE_STATUS, initial: 1 },
        ]
    );
    let build = match step.next {
        BuildNext::Await(build) => build,
        BuildNext::Done(_) => panic!("the build ended early"),
    };
    assert_eq!(build.phase(), BuildPhase::CompileStatus(ShaderStage::Vertex));
    let step = build.step(GlReply::Bytes(vec![0]));
    assert_eq!(step.calls, vec![GlCall::CreateShader { kind: gl::FRAGMENT_SHADER }]);
}

#[test]
fn a_log_is_cut_at_the_length_that_was_asked_for() {
    let first = Shader::<FloatBits>::new(&registry(), "pass.vert", "pass.frag").unwrap();
    let mut step = first;
    let replies = vec![
        GlReply::Handle(7),
        GlReply::Value(0),
        GlReply::Value(4),
        GlReply::Bytes(b"abcdefgh".to_vec()),
    ];
    let mut calls = Vec::new();
    for reply in replies {
        calls.extend(step.calls.iter().cloned());
        step = match step.next {
            BuildNext::Await(build) => build.step(reply),
            BuildNext::Done(_) => panic!("the build ended early"),
        };
    }
    assert_eq!(step.calls, vec![GlCall::DeleteShader { shader: 7 }]);
    assert_eq!(calls.last(), Some(&GlCall::GetShaderInfoLog { shader: 7, capacity: 4 }));
    match step.next {
        BuildNext::Done(Err(error)) => assert_eq!(
            error,
            ShaderError::ShaderCompileFailed {
                stage: ShaderStage::Vertex,
                log: "abcd".to_string(),
            }
        ),
        _ => panic!("the build did not fail"),
    }
}

#[test]
fn dispose_twice_deletes_the_program_once() {
    let mut gl = MockGl::new();
    let first = Shader::<FloatBits>::new(&registry(), "pass.vert", "pass.frag").unwrap();
    let mut shader = gl.build_shader(first).unwrap();
    let once = shader.dispose();
    assert_eq!(once, Ok(GlCall::DeleteProgram { program: 3 }));
    gl.perform(&once.unwrap());
    assert!(shader.is_disposed());
    let twice = shader.dispose();
    assert_eq!(twice, Err(ShaderError::DoubleDispose));
    assert!(shader.is_disposed());
    assert_eq!(shader.program(), 3);
    assert_eq!(gl.count(|call| matches!(call, GlCall::DeleteProgram { .. })), 1);
}

#[test]
fn construct_then_dispose_leaves_no_live_handle() {
    let mut gl = MockGl::new();
    let before = gl.live();
    let first = Shader::<FloatBits>::new(&registry(), "pass.vert", "pass.frag").unwrap();
    let mut shader = gl.build_shader(first).unwrap();
    assert_eq!(gl.live(), before + 1);
    let call = shader.dispose().unwrap();
    gl.perform(&call);
    assert_eq!(gl.live(), before);
}

#[test]
fn uniform_of_another_type_is_dropped() {
    let mut gl = MockGl::new();
    let first = Shader::<FloatBits>::new(&registry(), "pass.vert", "pass.frag").unwrap();
    let mut shader = gl.build_shader(first).unwrap();
    assert_eq!(shader.set_uniform("k", 3_i32), Err(ShaderError::UniformTypeMismatch));
    assert!(!shader.uniforms().contains("k"));
    assert_eq!(shader.set_uniform("k", FloatBits(1.0_f32.to_bits())), Ok(()));
    assert_eq!(
        shader.uniforms().get::<FloatBits>("k").map(|bits| f32::from_bits(bits.0)),
        Some(1.0)
    );
    assert_eq!(shader.uniforms().get::<i32>("k"), None);
}

#[test]
fn uniform_under_a_taken_name_is_reported() {
    let mut gl = MockGl::new();
    let first = Shader::<FloatBits>::new(&registry(), "pass.vert", "pass.frag").unwrap();
    let mut shader = gl.build_shader(first).unwrap();
    assert_eq!(shader.set_uniform("k", FloatBits(1.0_f32.to_bits())), Ok(()));
    assert_eq!(
        shader.set_uniform("k", FloatBits(2.0_f32.to_bits())),
        Err(ShaderError::UniformAlreadyExists { name: "k".to_string() })
    );
    assert_eq!(
        shader.uniforms().get::<FloatBits>("k").map(|bits| f32::from_bits(bits.0)),
        Some(1.0)
    );
    assert_eq!(shader.set_uniform("k", 2_i32), Err(ShaderError::UniformTypeMismatch));
}

#[test]
fn use_program_and_attribute_lookup() {
    let mut gl = MockGl::new();
    let first = Shader::<FloatBits>::new(&registry(), "pass.vert", "pass.frag").unwrap();
    let shader = gl.build_shader(first).unwrap();
    assert_eq!(shader.useprogram(), GlCall::UseProgram { program: 3 });
    let ask = shader.get_attrib_location("aPosition");
    assert_eq!(ask, GlCall::GetAttribLocation { program: 3, name: b"aPosition\0".to_vec() });
    assert_eq!(attrib_location(&gl.perform(&ask)), 0);
    let ask = shader.get_attrib_location("aColour");
    assert_eq!(attrib_location(&gl.perform(&ask)), -1);
    assert_eq!(attrib_location(&GlReply::Nothing), -1);
    assert_eq!(attrib_location(&GlReply::Value(5)), 5);
    let ask = shader.get_attrib_location("\u{e9}");
    assert_eq!(ask, GlCall::GetAttribLocation { program: 3, name: vec![0xc3, 0xa9, 0] });
}

#[test]
fn program_construction_asks_for_a_vertex_array_last() {
    let mut gl = MockGl::new();
    let program = program(&mut gl, GL_DrawMode::LINES);
    assert_eq!(gl.calls.len(), 18);
    assert_eq!(gl.calls.last(), Some(&GlCall::GenVertexArrays));
    assert_eq!(program.vao(), 4);
    assert_eq!(program.drawmode(), GL_DrawMode::LINES);
    assert_eq!(program.shader().program(), 3);
    assert!(!program.shader().is_disposed());
    assert_eq!(program.buffer("aPosition"), None);
    assert_eq!(program.bind(), GlCall::BindVertexArray { array: 4 });
    assert_eq!(program.useshader(), GlCall::UseProgram { program: 3 });
}

#[test]
fn program_construction_fails_with_the_shader() {
    let mut gl = MockGl::new();
    gl.link_status = 0;
    gl.link_log = b"E: missing main".to_vec();
    let first = shader_program::<FloatBits>::new(
        &registry(),
        "pass.vert",
        "pass.frag",
        GL_DrawMode::TRIANGLES,
    )
    .unwrap();
    let result = gl.build_program(first);
    assert_eq!(
        result.err(),
        Some(ShaderError::ShaderLinkFailed { log: "E: missing main".to_string() })
    );
    assert_eq!(gl.count(|call| matches!(call, GlCall::GenVertexArrays)), 0);
    assert_eq!(gl.live(), 0);
}

#[test]
fn triangle_draw() {
    let mut gl = MockGl::new();
    let mut program = program(&mut gl, GL_DrawMode::TRIANGLES);
    set_array(
        &mut gl,
        &mut program,
        "aPosition",
        0,
        3,
        &[-0.5, -0.5, 0.0, 0.5, -0.5, 0.0, 0.0, 0.5, 0.0],
    );
    gl.calls.clear();
    gl.perform(&program.bind());
    gl.perform(&program.useshader());
    let draw = program.draw();
    assert_eq!(draw, Some(GlCall::DrawArrays { mode: gl::TRIANGLES, first: 0, count: 3 }));
    gl.perform(&draw.unwrap());
    assert_eq!(gl.count(|call| matches!(call, GlCall::DrawArrays { .. })), 1);
    assert_eq!(
        gl.calls,
        vec![
            GlCall::BindVertexArray { array: 4 },
            GlCall::UseProgram { program: 3 },
            GlCall::DrawArrays { mode: gl::TRIANGLES, first: 0, count: 3 },
        ]
    );
}

#[test]
fn set_array_uploads_and_points_the_attribute() {
    let mut gl = MockGl::new();
    let mut program = program(&mut gl, GL_DrawMode::TRIANGLES);
    gl.calls.clear();
    set_array(
        &mut gl,
        &mut program,
        "aPosition",
        2,
        3,
        &[-0.5, -0.5, 0.0, 0.5, -0.5, 0.0, 0.0, 0.5, 0.0],
    );
    assert_eq!(
        gl.calls,
        vec![
            GlCall::GenBuffers,
            GlCall::BindVertexArray { array: 4 },
            GlCall::BindBuffer { target: gl::ARRAY_BUFFER, buffer: 5 },
            GlCall::BufferData { target: gl::ARRAY_BUFFER, length: 36, usage: gl::STATIC_DRAW },
            GlCall::VertexAttribPointer {
                index: 2,
                size: 3,
                kind: gl::FLOAT,
                normalized: false,
                stride: 0,
                offset: 0,
            },
            GlCall::EnableVertexAttribArray { index: 2 },
        ]
    );
    assert_eq!(program.buffer("aPosition"), Some(AttributeBuffer { buffer: 5, vertices: 3 }));
}

#[test]
fn rebind_replaces_the_buffer() {
    let mut gl = MockGl::new();
    let mut program = program(&mut gl, GL_DrawMode::TRIANGLES);
    set_array(&mut gl, &mut program, "aPos", 0, 3, &[0.0, 0.0, 0.0, 1.0, 0.0, 0.0]);
    let first = program.buffer("aPos").unwrap().buffer;
    set_array(&mut gl, &mut program, "aPos", 0, 3, &[0.0, 1.0, 0.0]);
    assert_eq!(gl.count(|call| matches!(call, GlCall::GenBuffers)), 2);
    assert_eq!(gl.count(|call| matches!(call, GlCall::DeleteBuffers { .. })), 1);
    assert!(gl.calls.contains(&GlCall::DeleteBuffers { buffer: first }));
    assert_eq!(program.buffer("aPos"), Some(AttributeBuffer { buffer: 6, vertices: 1 }));
    assert_eq!(gl.buffers, vec![6]);
}

#[test]
fn a_new_name_deletes_no_buffer() {
    let mut gl = MockGl::new();
    let mut program = program(&mut gl, GL_DrawMode::TRIANGLES);
    set_array(&mut gl, &mut program, "aPos", 0, 3, &[0.0, 0.0, 0.0]);
    set_array(&mut gl, &mut program, "aColour", 1, 4, &[1.0, 0.0, 0.0, 1.0]);
    assert_eq!(gl.count(|call| matches!(call, GlCall::DeleteBuffers { .. })), 0);
    assert_eq!(gl.buffers, vec![5, 6]);
}

#[test]
fn draw_without_arrays_does_nothing() {
    let mut gl = MockGl::new();
    let program = program(&mut gl, GL_DrawMode::TRIANGLES);
    assert_eq!(program.draw(), None);
}

#[test]
fn draw_takes_the_count_of_the_largest_array() {
    let mut gl = MockGl::new();
    let mut program = program(&mut gl, GL_DrawMode::POINTS);
    set_array(&mut gl, &mut program, "a", 0, 2, &[0.0; 4]);
    assert_eq!(
        program.draw(),
        Some(GlCall::DrawArrays { mode: gl::POINTS, first: 0, count: 2 })
    );
    set_array(&mut gl, &mut program, "b", 1, 3, &[0.0; 15]);
    set_array(&mut gl, &mut program, "c", 2, 4, &[0.0; 7]);
    assert_eq!(
        program.draw(),
        Some(GlCall::DrawArrays { mode: gl::POINTS, first: 0, count: 5 })
    );
    set_array(&mut gl, &mut program, "b", 1, 3, &[0.0; 3]);
    assert_eq!(
        program.draw(),
        Some(GlCall::DrawArrays { mode: gl::POINTS, first: 0, count: 2 })
    );
}

#[test]
fn an_array_without_components_holds_no_vertex() {
    let mut gl = MockGl::new();
    let mut program = program(&mut gl, GL_DrawMode::TRIANGLES);
    set_array(&mut gl, &mut program, "a", 0, 0, &[0.0; 4]);
    assert_eq!(program.buffer("a"), Some(AttributeBuffer { buffer: 5, vertices: 0 }));
    set_array(&mut gl, &mut program, "b", 1, -3, &[0.0; 4]);
    assert_eq!(program.buffer("b"), Some(AttributeBuffer { buffer: 6, vertices: 0 }));
    assert_eq!(
        program.draw(),
        Some(GlCall::DrawArrays { mode: gl::TRIANGLES, first: 0, count: 0 })
    );
}

#[test]
fn program_dispose_deletes_what_the_program_owns() {
    let mut gl = MockGl::new();
    let before = gl.live();
    let mut program = program(&mut gl, GL_DrawMode::TRIANGLES);
    set_array(&mut gl, &mut program, "aPos", 0, 3, &[0.0, 0.0, 0.0]);
    set_array(&mut gl, &mut program, "aColour", 1, 4, &[1.0, 0.0, 0.0, 1.0]);
    assert_eq!(gl.live(), before + 4);
    gl.calls.clear();
    let calls = program.dispose().unwrap();
    gl.perform_all(&calls);
    assert_eq!(calls.len(), 4);
    assert_eq!(gl.count(|call| matches!(call, GlCall::DeleteBuffers { .. })), 2);
    assert!(gl.calls.contains(&GlCall::DeleteBuffers { buffer: 5 }));
    assert!(gl.calls.contains(&GlCall::DeleteBuffers { buffer: 6 }));
    assert_eq!(
        gl.calls[2..].to_vec(),
        vec![GlCall::DeleteVertexArrays { array: 4 }, GlCall::DeleteProgram { program: 3 }]
    );
    assert_eq!(gl.live(), before);
    assert!(program.shader().is_disposed());
    assert_eq!(program.buffer("aPos"), None);
    assert_eq!(program.draw(), None);
    assert_eq!(program.dispose(), Err(ShaderError::DoubleDispose));
    assert_eq!(gl.count(|call| matches!(call, GlCall::DeleteProgram { .. })), 1);
}

#[test]
fn program_dispose_without_arrays() {
    let mut gl = MockGl::new();
    let mut program = program(&mut gl, GL_DrawMode::TRIANGLES);
    assert_eq!(
        program.dispose(),
        Ok(vec![GlCall::DeleteVertexArrays { array: 4 }, GlCall::DeleteProgram { program: 3 }])
    );
    assert_eq!(program.dispose(), Err(ShaderError::DoubleDispose));
}
