use opengl_rust::driver::{COMPILE_STATUS, INFO_LOG_LENGTH, LINK_STATUS};
use opengl_rust::shader::ShaderKind;
use opengl_rust::source::Source;
use opengl_rust::text::{capacity_for, whitespace_buffer, PLACEHOLDER};

#[test]
fn shader_kinds_are_the_drivers_constants() {
    assert_eq!(ShaderKind::Vertex.native(), gl::VERTEX_SHADER);
    assert_eq!(ShaderKind::Fragment.native(), gl::FRAGMENT_SHADER);
    assert_eq!(ShaderKind::Geometry.native(), gl::GEOMETRY_SHADER);
    assert_eq!(ShaderKind::TessControl.native(), gl::TESS_CONTROL_SHADER);
    assert_eq!(ShaderKind::TessEvaluation.native(), gl::TESS_EVALUATION_SHADER);
    assert_eq!(ShaderKind::Compute.native(), gl::COMPUTE_SHADER);
}

#[test]
fn shader_kinds_have_the_documented_values() {
    assert_eq!(ShaderKind::Vertex.native(), 0x8B31);
    assert_eq!(ShaderKind::Fragment.native(), 0x8B30);
    assert_eq!(ShaderKind::Geometry.native(), 0x8DD9);
    assert_eq!(ShaderKind::TessControl.native(), 0x8E88);
    assert_eq!(ShaderKind::TessEvaluation.native(), 0x8E87);
    assert_eq!(ShaderKind::Compute.native(), 0x91B9);
}

#[test]
fn no_two_shader_kinds_share_a_constant() {
    let kinds = [
        ShaderKind::Vertex,
        ShaderKind::Fragment,
        ShaderKind::Geometry,
        ShaderKind::TessControl,
        ShaderKind::TessEvaluation,
        ShaderKind::Compute,
    ];
    for (i, first) in kinds.iter().enumerate() {
        for (j, second) in kinds.iter().enumerate() {
            assert_eq!(first.native() == second.native(), i == j);
        }
    }
}

#[test]
fn parameter_names_are_the_drivers_constants() {
    assert_eq!(COMPILE_STATUS, gl::COMPILE_STATUS);
    assert_eq!(LINK_STATUS, gl::LINK_STATUS);
    assert_eq!(INFO_LOG_LENGTH, gl::INFO_LOG_LENGTH);
}

#[test]
fn whitespace_buffer_of_five_is_five_spaces() {
    assert_eq!(whitespace_buffer(5), b"     ".to_vec());
}

#[test]
fn whitespace_buffer_of_nothing_is_empty() {
    assert_eq!(whitespace_buffer(0), Vec::<u8>::new());
}

#[test]
fn whitespace_buffer_has_the_length_asked_for() {
    let buffer = whitespace_buffer(1000);
    assert_eq!(buffer.len(), 1000);
    assert!(buffer.iter().all(|byte| *byte == PLACEHOLDER));
    assert_eq!(PLACEHOLDER, b' ');
}

#[test]
fn source_keeps_its_bytes() {
    let text = b"#version 330 core\nvoid main() {}\n".to_vec();
    let source = Source::new(text.clone()).expect("the text holds no zero byte");
    assert_eq!(source.as_bytes(), &text);
}

#[test]
fn source_may_be_empty() {
    let source = Source::new(Vec::new()).expect("no byte, so no zero byte");
    assert!(source.as_bytes().is_empty());
}

#[test]
fn source_with_a_zero_byte_is_refused() {
    assert!(Source::new(b"void main() {}\0".to_vec()).is_none());
    assert!(Source::new(b"\0void".to_vec()).is_none());
    assert!(Source::new(b"vo\0id".to_vec()).is_none());
    assert!(Source::new(vec![0]).is_none());
}

#[test]
fn source_takes_bytes_that_are_not_text() {
    let source = Source::new(vec![0xff, 0xfe, 0x01]).expect("no zero byte");
    assert_eq!(source.as_bytes(), &vec![0xff, 0xfe, 0x01]);
}

#[test]
fn log_capacity_is_the_length_the_driver_gave() {
    assert_eq!(capacity_for(0), 0);
    assert_eq!(capacity_for(1), 1);
    assert_eq!(capacity_for(512), 512);
    assert_eq!(capacity_for(i32::MAX), i32::MAX);
}

#[test]
fn log_capacity_of_a_negative_length_is_nothing() {
    assert_eq!(capacity_for(-1), 0);
    assert_eq!(capacity_for(i32::MIN), 0);
}
