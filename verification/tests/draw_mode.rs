use glfwproject::graphics::command::GlCall;
use glfwproject::graphics::utility::{
    create_shader, gen_vertex_array, get_shaderiv, shader_source, FloatBits, GL_DataType,
    GL_DrawMode, ShaderStage, GL_ARRAY_BUFFER, GL_COMPILE_STATUS, GL_FLOAT, GL_INFO_LOG_LENGTH,
    GL_LINK_STATUS, GL_NO_ERROR, GL_STATIC_DRAW,
};

#[test]
fn default_draw_mode_is_triangles() {
    assert_eq!(GL_DrawMode::default(), GL_DrawMode::TRIANGLES);
    assert_eq!(GL_DrawMode::default().value(), gl::TRIANGLES);
    assert_eq!(GL_DrawMode::default().value(), 4);
}

#[test]
fn draw_modes_map_to_the_enumerants_of_the_api() {
    assert_eq!(GL_DrawMode::POINTS.value(), gl::POINTS);
    assert_eq!(GL_DrawMode::LINES.value(), gl::LINES);
    assert_eq!(GL_DrawMode::LINE_LOOP.value(), gl::LINE_LOOP);
    assert_eq!(GL_DrawMode::LINE_STRIP.value(), gl::LINE_STRIP);
    assert_eq!(GL_DrawMode::TRIANGLES.value(), gl::TRIANGLES);
    assert_eq!(GL_DrawMode::TRIANGLE_STRIP.value(), gl::TRIANGLE_STRIP);
    assert_eq!(GL_DrawMode::TRIANGLE_FAN.value(), gl::TRIANGLE_FAN);
}

#[test]
fn draw_modes_have_distinct_values() {
    let modes = [
        GL_DrawMode::POINTS,
        GL_DrawMode::LINES,
        GL_DrawMode::LINE_LOOP,
        GL_DrawMode::LINE_STRIP,
        GL_DrawMode::TRIANGLES,
        GL_DrawMode::TRIANGLE_STRIP,
        GL_DrawMode::TRIANGLE_FAN,
    ];
    for (i, a) in modes.iter().enumerate() {
        for (j, b) in modes.iter().enumerate() {
            assert_eq!(a.value() == b.value(), i == j);
        }
    }
}

#[test]
fn shader_stages_map_to_the_enumerants_of_the_api() {
    assert_eq!(ShaderStage::Vertex.value(), gl::VERTEX_SHADER);
    assert_eq!(ShaderStage::Fragment.value(), gl::FRAGMENT_SHADER);
}

#[test]
fn constants_match_the_bindings() {
    assert_eq!(GL_FLOAT, gl::FLOAT);
    assert_eq!(GL_COMPILE_STATUS, gl::COMPILE_STATUS);
    assert_eq!(GL_LINK_STATUS, gl::LINK_STATUS);
    assert_eq!(GL_INFO_LOG_LENGTH, gl::INFO_LOG_LENGTH);
    assert_eq!(GL_ARRAY_BUFFER, gl::ARRAY_BUFFER);
    assert_eq!(GL_STATIC_DRAW, gl::STATIC_DRAW);
    assert_eq!(GL_NO_ERROR, gl::NO_ERROR);
}

struct Half(u16);

impl GL_DataType for Half {
    fn value(&self) -> u32 {
        gl::HALF_FLOAT
    }
}

#[test]
fn element_types_report_their_enumerant() {
    assert_eq!(FloatBits(1.5f32.to_bits()).value(), gl::FLOAT);
    assert_eq!(Half(0x3c00).value(), gl::HALF_FLOAT);
    assert_eq!(Half(0x3c00).0, 0x3c00);
}

#[test]
fn helpers_name_the_calls_of_the_driver() {
    assert_eq!(gen_vertex_array(), GlCall::GenVertexArrays);
    assert_eq!(
        create_shader(gl::FRAGMENT_SHADER),
        GlCall::CreateShader { kind: gl::FRAGMENT_SHADER }
    );
    assert_eq!(
        get_shaderiv(3, gl::COMPILE_STATUS),
        GlCall::GetShaderiv { shader: 3, pname: gl::COMPILE_STATUS, initial: 1 }
    );
    assert_eq!(
        shader_source(b"void main(){}", 3),
        vec![
            GlCall::ShaderSource { shader: 3, source: b"void main(){}\0".to_vec() },
            GlCall::CompileShader { shader: 3 },
            GlCall::GetShaderiv { shader: 3, pname: gl::COMPILE_STATUS, initial: 1 },
        ]
    );
    assert_eq!(
        shader_source(b"", 0),
        vec![
            GlCall::ShaderSource { shader: 0, source: vec![0] },
            GlCall::CompileShader { shader: 0 },
            GlCall::GetShaderiv { shader: 0, pname: gl::COMPILE_STATUS, initial: 1 },
        ]
    );
}
