use app_core::shader::{
    check_compile_status, check_link_status, check_source, check_status, failure, find_nul,
    info_log_capacity, ShaderError, ShaderKind, ShaderProgram, Stage,
};
use app_core::text::decimal_text;

#[test]
fn shader_kinds_map_to_the_gl_types() {
    assert_eq!(ShaderKind::Vertex.map_type(), gl::VERTEX_SHADER);
    assert_eq!(ShaderKind::Fragment.map_type(), gl::FRAGMENT_SHADER);
    assert_eq!(ShaderKind::Geometry.map_type(), gl::GEOMETRY_SHADER);
    assert_eq!(ShaderKind::TessellationControl.map_type(), gl::TESS_CONTROL_SHADER);
    assert_eq!(ShaderKind::TessellationEvaluation.map_type(), gl::TESS_EVALUATION_SHADER);
    assert_eq!(ShaderKind::Compute.map_type(), gl::COMPUTE_SHADER);
    assert_eq!(ShaderKind::Vertex.map_type(), 0x8B31);
}

#[test]
fn source_without_nul_is_accepted() {
    assert_eq!(check_source("#version 330 core\nvoid main() {}\n"), Ok(()));
    assert_eq!(check_source(""), Ok(()));
    assert_eq!(find_nul("héllo"), None);
}

#[test]
fn source_with_nul_is_refused_at_the_first_one() {
    assert_eq!(check_source("ab\0cd\0"), Err(ShaderError::NulInSource { position: 2 }));
    assert_eq!(check_source("\0"), Err(ShaderError::NulInSource { position: 0 }));
    // The position counts bytes of the UTF-8 encoding, not characters.
    assert_eq!(find_nul("é\0"), Some(2));
}

#[test]
fn nonzero_status_is_success() {
    assert_eq!(check_compile_status(1, 0, &[]), Ok(()));
    assert_eq!(check_link_status(1, 12, b"ignored log\0"), Ok(()));
    assert_eq!(check_compile_status(-1, 0, &[]), Ok(()));
}

#[test]
fn failure_surfaces_the_log_without_its_terminator() {
    let log = b"0:1(1): error: syntax error\0";
    assert_eq!(
        check_compile_status(0, log.len() as i32, log),
        Err(ShaderError::CompileFailed { log: "0:1(1): error: syntax error".to_string() })
    );
    assert_eq!(
        check_link_status(0, log.len() as i32, log),
        Err(ShaderError::LinkFailed { log: "0:1(1): error: syntax error".to_string() })
    );
}

#[test]
fn failure_without_log_is_the_silent_kind() {
    assert_eq!(check_compile_status(0, 0, &[]), Err(ShaderError::CompileFailedSilently));
    assert_eq!(check_link_status(0, 0, &[]), Err(ShaderError::LinkFailedSilently));
    assert_eq!(check_compile_status(0, -5, b"junk"), Err(ShaderError::CompileFailedSilently));
    // A log of the terminator alone holds no text.
    assert_eq!(check_compile_status(0, 1, b"\0"), Err(ShaderError::CompileFailedSilently));
    assert_eq!(check_link_status(0, 1, b"\0"), Err(ShaderError::LinkFailedSilently));
    assert_eq!(check_status(Stage::Link, 0, 9, &[]), Err(ShaderError::LinkFailedSilently));
}

#[test]
fn invalid_utf8_in_the_log_is_replaced() {
    let log = [b'f', 0xFF, b'o', 0];
    assert_eq!(
        check_compile_status(0, 4, &log),
        Err(ShaderError::CompileFailed { log: "f\u{FFFD}o".to_string() })
    );
}

#[test]
fn log_shorter_than_reported_is_taken_whole() {
    assert_eq!(
        check_link_status(0, 100, b"short"),
        Err(ShaderError::LinkFailed { log: "short".to_string() })
    );
    assert_eq!(
        check_link_status(0, 3, b"longer"),
        Err(ShaderError::LinkFailed { log: "lo".to_string() })
    );
}

#[test]
fn info_log_is_fetched_only_after_a_failure_with_a_log() {
    assert_eq!(info_log_capacity(0, 57), 57);
    assert_eq!(info_log_capacity(0, 1), 1);
    assert_eq!(info_log_capacity(0, 0), 0);
    assert_eq!(info_log_capacity(0, -3), 0);
    assert_eq!(info_log_capacity(1, 57), 0);
    assert_eq!(info_log_capacity(0, i32::MAX), i32::MAX as usize);
}

#[test]
fn failure_of_a_text_is_silent_only_without_text() {
    assert_eq!(failure(Stage::Compile, String::new()), ShaderError::CompileFailedSilently);
    assert_eq!(failure(Stage::Link, String::new()), ShaderError::LinkFailedSilently);
    assert_eq!(
        failure(Stage::Compile, "x".to_string()),
        ShaderError::CompileFailed { log: "x".to_string() }
    );
    assert_eq!(
        failure(Stage::Link, "y".to_string()),
        ShaderError::LinkFailed { log: "y".to_string() }
    );
}

#[test]
fn error_messages_read_as_documented() {
    assert_eq!(
        ShaderError::NulInSource { position: 120 }.message(),
        "Shader source contains null byte: nul byte found in provided data at position: 120"
    );
    assert_eq!(
        ShaderError::CompileFailed { log: "bad token".to_string() }.message(),
        "Shader compilation failed:\nbad token"
    );
    assert_eq!(
        ShaderError::CompileFailedSilently.message(),
        "Shader compilation failed with no error message"
    );
    assert_eq!(
        ShaderError::LinkFailed { log: "unresolved".to_string() }.message(),
        "Shader program linking failed:\nunresolved"
    );
    assert_eq!(
        ShaderError::LinkFailedSilently.message(),
        "Shader program linking failed with no error message"
    );
}

#[test]
fn nul_error_message_names_the_byte_offset() {
    let source = "void main() {}\0";
    assert_eq!(
        check_source(source).unwrap_err().message(),
        "Shader source contains null byte: nul byte found in provided data at position: 14"
    );
}

#[test]
fn decimal_text_of_numbers() {
    assert_eq!(decimal_text(0), "0");
    assert_eq!(decimal_text(7), "7");
    assert_eq!(decimal_text(10), "10");
    assert_eq!(decimal_text(1234567890), "1234567890");
    assert_eq!(decimal_text(usize::MAX), usize::MAX.to_string());
}

#[test]
fn program_keeps_attached_shaders_until_linked() {
    let mut program = ShaderProgram::new(9);
    assert_eq!(program.id(), 9);
    assert!(program.shader_ids().is_empty());
    program.attach(3);
    program.attach(5);
    assert_eq!(program.shader_ids(), &vec![3, 5]);
}

#[test]
fn successful_link_releases_every_shader() {
    let mut program = ShaderProgram::new(9);
    program.attach(3);
    program.attach(5);
    assert_eq!(program.link(1, 0, &[]), Ok(vec![3, 5]));
    assert!(program.shader_ids().is_empty());
    assert_eq!(program.id(), 9);
    assert_eq!(program.link(1, 0, &[]), Ok(vec![]));
}

#[test]
fn failed_link_keeps_the_shaders() {
    let mut program = ShaderProgram::new(9);
    program.attach(3);
    program.attach(5);
    assert_eq!(
        program.link(0, 6, b"error\0"),
        Err(ShaderError::LinkFailed { log: "error".to_string() })
    );
    assert_eq!(program.shader_ids(), &vec![3, 5]);
    assert_eq!(program.link(0, 0, &[]), Err(ShaderError::LinkFailedSilently));
    assert_eq!(program.shader_ids(), &vec![3, 5]);
}
