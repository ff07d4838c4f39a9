use glfwproject::graphics::shader::error::ShaderError;
use glfwproject::graphics::shader::source::ShaderRegistry;
use glfwproject::graphics::utility::{check_gl_error, get_shader_info_log, ShaderStage};
use glfwproject::utility::{log_examples, LogLevel};

#[test]
fn no_error_is_not_reported() {
    assert_eq!(check_gl_error("post-draw", gl::NO_ERROR), None);
    assert_eq!(check_gl_error("", 0), None);
}

#[test]
fn an_error_is_reported_with_its_place_and_code() {
    assert_eq!(
        check_gl_error("post-draw", gl::INVALID_OPERATION),
        Some("OpenGL error at post-draw: 1282".to_string())
    );
    assert_eq!(check_gl_error("x", 7), Some("OpenGL error at x: 7".to_string()));
    assert_eq!(check_gl_error("x", 10), Some("OpenGL error at x: 10".to_string()));
    assert_eq!(check_gl_error("", 100), Some("OpenGL error at : 100".to_string()));
    assert_eq!(
        check_gl_error("end", u32::MAX),
        Some("OpenGL error at end: 4294967295".to_string())
    );
}

#[test]
fn error_codes_are_written_like_std_writes_them() {
    for code in [1u32, 9, 10, 11, 99, 100, 101, 1280, 1281, 1285, 65535, 65536, 4294967294] {
        assert_eq!(
            check_gl_error("here", code),
            Some(format!("OpenGL error at here: {}", code))
        );
    }
}

#[test]
fn messages_name_the_path_the_log_or_the_name() {
    assert_eq!(
        ShaderError::AssetMissing { path: "default.vert".to_string() }.message(),
        "Could not get file default.vert"
    );
    assert_eq!(
        ShaderError::ShaderCompileFailed {
            stage: ShaderStage::Vertex,
            log: "E: bad syntax".to_string(),
        }
        .message(),
        "Could not compile vertex shader with reason E: bad syntax"
    );
    assert_eq!(
        ShaderError::ShaderCompileFailed {
            stage: ShaderStage::Fragment,
            log: "E: bad syntax".to_string(),
        }
        .message(),
        "Could not compile fragment shader with reason E: bad syntax"
    );
    assert_eq!(
        ShaderError::ShaderLinkFailed { log: "E: missing main".to_string() }.message(),
        "Could not link shader with reason E: missing main"
    );
    assert_eq!(
        ShaderError::UniformAlreadyExists { name: "k".to_string() }.message(),
        "Uniform 'k' already exists!"
    );
    assert_eq!(
        ShaderError::UniformTypeMismatch.message(),
        "Uniform type does not match the shader's"
    );
    assert_eq!(ShaderError::DoubleDispose.message(), "Shader is already disposed");
}

#[test]
fn errors_of_construction_are_fatal() {
    let errors = [
        ShaderError::AssetMissing { path: String::new() },
        ShaderError::ShaderCompileFailed { stage: ShaderStage::Vertex, log: String::new() },
        ShaderError::ShaderCompileFailed { stage: ShaderStage::Fragment, log: String::new() },
        ShaderError::ShaderLinkFailed { log: String::new() },
    ];
    for error in errors {
        assert!(error.is_fatal());
        assert_eq!(error.level(), LogLevel::Error);
    }
}

#[test]
fn errors_of_use_are_not_fatal() {
    let taken = ShaderError::UniformAlreadyExists { name: String::new() };
    assert!(!taken.is_fatal());
    assert_eq!(taken.level(), LogLevel::Error);
    assert!(!ShaderError::UniformTypeMismatch.is_fatal());
    assert_eq!(ShaderError::UniformTypeMismatch.level(), LogLevel::Warn);
    assert!(!ShaderError::DoubleDispose.is_fatal());
    assert_eq!(ShaderError::DoubleDispose.level(), LogLevel::Warn);
}

#[test]
fn a_log_of_no_length_is_none() {
    assert_eq!(get_shader_info_log(0, &b"ignored".to_vec()), None);
    assert_eq!(get_shader_info_log(-1, &b"ignored".to_vec()), None);
    assert_eq!(get_shader_info_log(i32::MIN, &Vec::new()), None);
}

#[test]
fn a_log_ends_at_the_first_zero_byte() {
    assert_eq!(get_shader_info_log(9, &b"E: x\0yz\0\0".to_vec()), Some("E: x".to_string()));
    assert_eq!(get_shader_info_log(3, &b"\0ab".to_vec()), Some(String::new()));
    assert_eq!(get_shader_info_log(3, &b"abc".to_vec()), Some("abc".to_string()));
}

#[test]
fn a_log_is_no_longer_than_its_length() {
    assert_eq!(get_shader_info_log(2, &b"abc".to_vec()), Some("ab".to_string()));
    assert_eq!(get_shader_info_log(10, &b"abc".to_vec()), Some("abc".to_string()));
    assert_eq!(get_shader_info_log(1, &Vec::new()), Some(String::new()));
    assert_eq!(get_shader_info_log(i32::MAX, &b"a\0".to_vec()), Some("a".to_string()));
}

#[test]
fn a_log_is_decoded_lossily() {
    assert_eq!(
        get_shader_info_log(4, &vec![b'a', 0xff, b'b', 0]),
        Some("a\u{fffd}b".to_string())
    );
    assert_eq!(
        get_shader_info_log(6, &vec![0xc3, 0xa9, 0xe2, 0x82, 0xac, 0]),
        Some("\u{e9}\u{20ac}".to_string())
    );
    assert_eq!(get_shader_info_log(2, &vec![0xc3, 0xa9, 0]), Some("\u{e9}".to_string()));
    assert_eq!(get_shader_info_log(1, &vec![0xc3, 0xa9, 0]), Some("\u{fffd}".to_string()));
}

#[test]
fn the_registry_hands_out_what_was_registered() {
    let mut registry = ShaderRegistry::new();
    assert_eq!(
        registry.get("default.vert").err(),
        Some(ShaderError::AssetMissing { path: "default.vert".to_string() })
    );
    registry.register("default.vert", b"void main(){}".to_vec());
    registry.register("default.frag", Vec::new());
    assert_eq!(registry.get("default.vert"), Ok(&b"void main(){}".to_vec()));
    assert_eq!(registry.get("default.frag"), Ok(&Vec::new()));
    assert_eq!(
        registry.get("Default.vert").err(),
        Some(ShaderError::AssetMissing { path: "Default.vert".to_string() })
    );
    registry.register("default.vert", b"void main(){ }".to_vec());
    assert_eq!(registry.get("default.vert"), Ok(&b"void main(){ }".to_vec()));
}

#[test]
fn there_is_an_example_line_for_every_level() {
    let lines = log_examples();
    assert_eq!(
        lines,
        vec![
            (LogLevel::Trace, "This is a trace level message demonstrating detailed logging."),
            (LogLevel::Debug, "This is a debug level message for debugging purposes."),
            (
                LogLevel::Info,
                "This is an info level message, providing general operational information."
            ),
            (LogLevel::Warn, "This is a warning, indicating a potential issue."),
            (LogLevel::Error, "This is an error message, signaling a failure that occurred."),
            (LogLevel::Info, "This is a generic log! macro message at the Info level."),
        ]
    );
}
