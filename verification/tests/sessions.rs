use opengl_rust::driver::{Call, Progress, Reply, COMPILE_STATUS, INFO_LOG_LENGTH, LINK_STATUS};
use opengl_rust::program::{Linking, Program};
use opengl_rust::shader::{Compilation, Shader, ShaderKind};
use opengl_rust::source::Source;

const VERTEX: &[u8] = b"#version 330 core\nlayout (location = 0) in vec3 position;\nout vec3 tint;\nvoid main() { tint = position; gl_Position = vec4(position, 1.0); }\n";
const FRAGMENT: &[u8] = b"#version 330 core\nin vec3 tint;\nout vec4 colour;\nvoid main() { colour = vec4(tint, 1.0); }\n";
const BROKEN: &[u8] = b"#version 330 core\nvoid main() { gl_Position = ; }\n";
const UNFED: &[u8] = b"#version 330 core\nin vec3 shade;\nout vec4 colour;\nvoid main() { colour = vec4(shade, 1.0); }\n";
const COMPILE_LOG: &[u8] = b"0:2(29): error: syntax error, unexpected ';'\n\0";
const LINK_LOG: &[u8] = b"error: fragment shader input `shade' has no matching output\n\0";

/// A stand-in for the driver: it hands out handles from 1 on, refuses the
/// sources and the sets of shaders it is told to refuse, and keeps count of
/// what it allocated, attached and freed.
struct Driver {
    next: u32,
    performed: Vec<Call>,
    sources: Vec<(u32, Vec<u8>)>,
    live_shaders: Vec<u32>,
    live_programs: Vec<u32>,
    freed: Vec<u32>,
    attached: Vec<(u32, u32)>,
    used: Option<u32>,
    broken: Vec<u32>,
    unlinked: Vec<u32>,
    link_fails: bool,
}

fn driver() -> Driver {
    Driver {
        next: 1,
        performed: Vec::new(),
        sources: Vec::new(),
        live_shaders: Vec::new(),
        live_programs: Vec::new(),
        freed: Vec::new(),
        attached: Vec::new(),
        used: None,
        broken: Vec::new(),
        unlinked: Vec::new(),
        link_fails: false,
    }
}

fn written(mut buffer: Vec<u8>, capacity: i32, log: &[u8]) -> Vec<u8> {
    let room = (capacity as usize).min(buffer.len()).min(log.len());
    buffer[..room].copy_from_slice(&log[..room]);
    buffer
}

fn perform(driver: &mut Driver, call: Call) -> Reply {
    let reply = match &call {
        Call::CreateShader { .. } => {
            driver.next += 1;
            driver.live_shaders.push(driver.next - 1);
            Reply::Handle(driver.next - 1)
        }
        Call::ShaderSource { shader, source } => {
            driver.sources.push((*shader, source.clone()));
            Reply::Performed
        }
        Call::CompileShader { shader } => {
            let source = &driver.sources.iter().rev().find(|held| held.0 == *shader).unwrap().1;
            if source.as_slice() == BROKEN {
                driver.broken.push(*shader);
            }
            Reply::Performed
        }
        Call::GetShaderiv { shader, parameter, preset } => {
            let broken = driver.broken.contains(shader);
            if *parameter == COMPILE_STATUS {
                Reply::Value(if broken { 0 } else { 1 })
            } else if *parameter == INFO_LOG_LENGTH {
                Reply::Value(if broken { COMPILE_LOG.len() as i32 } else { 0 })
            } else {
                Reply::Value(*preset)
            }
        }
        Call::GetShaderInfoLog { capacity, buffer, .. } => {
            Reply::Log(written(buffer.clone(), *capacity, COMPILE_LOG))
        }
        Call::DeleteShader { shader } => {
            driver.live_shaders.retain(|live| live != shader);
            driver.freed.push(*shader);
            Reply::Performed
        }
        Call::CreateProgram => {
            driver.next += 1;
            driver.live_programs.push(driver.next - 1);
            Reply::Handle(driver.next - 1)
        }
        Call::AttachShader { program, shader } => {
            driver.attached.push((*program, *shader));
            Reply::Performed
        }
        Call::LinkProgram { program } => {
            if driver.link_fails {
                driver.unlinked.push(*program);
            }
            Reply::Performed
        }
        Call::GetProgramiv { program, parameter, preset } => {
            let unlinked = driver.unlinked.contains(program);
            if *parameter == LINK_STATUS {
                Reply::Value(if unlinked { 0 } else { 1 })
            } else if *parameter == INFO_LOG_LENGTH {
                Reply::Value(if unlinked { LINK_LOG.len() as i32 } else { 0 })
            } else {
                Reply::Value(*preset)
            }
        }
        Call::GetProgramInfoLog { capacity, buffer, .. } => {
            Reply::Log(written(buffer.clone(), *capacity, LINK_LOG))
        }
        Call::DetachShader { program, shader } => {
            let at = driver.attached.iter().position(|pair| *pair == (*program, *shader)).unwrap();
            driver.attached.remove(at);
            Reply::Performed
        }
        Call::UseProgram { program } => {
            driver.used = Some(*program);
            Reply::Performed
        }
        Call::DeleteProgram { program } => {
            driver.live_programs.retain(|live| live != program);
            driver.attached.retain(|pair| pair.0 != *program);
            driver.freed.push(*program);
            Reply::Performed
        }
    };
    driver.performed.push(call);
    reply
}

fn compile(driver: &mut Driver, mut session: Compilation) -> Result<Shader, String> {
    loop {
        let reply = perform(driver, session.request());
        match session.advance(reply) {
            Progress::Pending(next) => session = next,
            Progress::Done(result) => return result,
        }
    }
}

fn link(driver: &mut Driver, mut session: Linking) -> Result<Program, String> {
    loop {
        let reply = perform(driver, session.request());
        match session.advance(reply) {
            Progress::Pending(next) => session = next,
            Progress::Done(result) => return result,
        }
    }
}

fn source(text: &[u8]) -> Source {
    Source::new(text.to_vec()).expect("the text holds no zero byte")
}

fn replay(mut session: Compilation, replies: Vec<Reply>) -> (Vec<Call>, Progress<Compilation, Shader>) {
    let mut calls = Vec::new();
    for reply in replies {
        calls.push(session.request());
        match session.advance(reply) {
            Progress::Pending(next) => session = next,
            done => return (calls, done),
        }
    }
    (calls, Progress::Pending(session))
}

fn replay_link(mut session: Linking, replies: Vec<Reply>) -> (Vec<Call>, Progress<Linking, Program>) {
    let mut calls = Vec::new();
    for reply in replies {
        calls.push(session.request());
        match session.advance(reply) {
            Progress::Pending(next) => session = next,
            done => return (calls, done),
        }
    }
    (calls, Progress::Pending(session))
}

fn shader_with_handle(handle: u32) -> Shader {
    let session = Shader::from_vert_source(&source(VERTEX));
    let replies = vec![Reply::Handle(handle), Reply::Performed, Reply::Performed, Reply::Value(1)];
    match replay(session, replies).1 {
        Progress::Done(Ok(shader)) => shader,
        other => panic!("not compiled: {:?}", other),
    }
}

#[test]
fn valid_source_gives_a_shader_with_the_created_handle() {
    let mut driver = driver();
    let shader = compile(&mut driver, Shader::from_source(&source(VERTEX), ShaderKind::Vertex))
        .expect("the driver takes the source");
    assert_ne!(shader.id(), 0);
    assert_eq!(shader.id(), 1);
    assert_eq!(
        driver.performed,
        vec![
            Call::CreateShader { kind: 0x8B31 },
            Call::ShaderSource { shader: 1, source: VERTEX.to_vec() },
            Call::CompileShader { shader: 1 },
            Call::GetShaderiv { shader: 1, parameter: 0x8B81, preset: 1 },
        ]
    );
    assert_eq!(driver.live_shaders, vec![1]);
    let release = shader.release();
    assert_eq!(release, Call::DeleteShader { shader: 1 });
    perform(&mut driver, release);
    assert_eq!(driver.freed, vec![1]);
    assert!(driver.live_shaders.is_empty());
}

#[test]
fn vertex_and_fragment_entry_points_fix_the_kind() {
    let vertex = Shader::from_vert_source(&source(VERTEX));
    assert_eq!(vertex.request(), Call::CreateShader { kind: gl::VERTEX_SHADER });
    let fragment = Shader::from_frag_source(&source(FRAGMENT));
    assert_eq!(fragment.request(), Call::CreateShader { kind: gl::FRAGMENT_SHADER });
    let compute = Shader::from_source(&source(FRAGMENT), ShaderKind::Compute);
    assert_eq!(compute.request(), Call::CreateShader { kind: gl::COMPUTE_SHADER });
}

#[test]
fn from_source_leaves_the_source_with_the_caller() {
    let text = source(FRAGMENT);
    let first = Shader::from_frag_source(&text);
    let second = Shader::from_frag_source(&text);
    assert_eq!(text.as_bytes(), &FRAGMENT.to_vec());
    let (calls, _) = replay(first, vec![Reply::Handle(3), Reply::Performed]);
    assert_eq!(calls[1], Call::ShaderSource { shader: 3, source: FRAGMENT.to_vec() });
    let (calls, _) = replay(second, vec![Reply::Handle(4), Reply::Performed]);
    assert_eq!(calls[1], Call::ShaderSource { shader: 4, source: FRAGMENT.to_vec() });
}

#[test]
fn syntax_error_gives_the_drivers_log() {
    let mut driver = driver();
    let failure = compile(&mut driver, Shader::from_source(&source(BROKEN), ShaderKind::Vertex))
        .expect_err("the driver refuses the source");
    assert!(!failure.is_empty());
    assert_eq!(failure, "0:2(29): error: syntax error, unexpected ';'\n\0");
    assert_eq!(
        driver.performed,
        vec![
            Call::CreateShader { kind: 0x8B31 },
            Call::ShaderSource { shader: 1, source: BROKEN.to_vec() },
            Call::CompileShader { shader: 1 },
            Call::GetShaderiv { shader: 1, parameter: 0x8B81, preset: 1 },
            Call::GetShaderiv { shader: 1, parameter: 0x8B84, preset: 0 },
            Call::GetShaderInfoLog {
                shader: 1,
                capacity: COMPILE_LOG.len() as i32,
                buffer: vec![b' '; COMPILE_LOG.len()],
            },
            Call::DeleteShader { shader: 1 },
        ]
    );
}

#[test]
fn refused_shader_is_freed_before_the_error_comes_back() {
    let mut driver = driver();
    let outcome = compile(&mut driver, Shader::from_frag_source(&source(BROKEN)));
    assert!(outcome.is_err());
    assert_eq!(driver.freed, vec![1]);
    assert!(driver.live_shaders.is_empty());
}

#[test]
fn status_other_than_zero_is_success() {
    for status in [1, -1, 2, i32::MAX, i32::MIN] {
        let session = Shader::from_vert_source(&source(VERTEX));
        let replies =
            vec![Reply::Handle(9), Reply::Performed, Reply::Performed, Reply::Value(status)];
        let (calls, progress) = replay(session, replies);
        assert_eq!(calls.len(), 4);
        match progress {
            Progress::Done(Ok(shader)) => assert_eq!(shader.id(), 9),
            other => panic!("status {} is not success: {:?}", status, other),
        }
    }
}

#[test]
fn zero_handle_is_handed_on_as_the_driver_gave_it() {
    let session = Shader::from_vert_source(&source(VERTEX));
    let replies = vec![Reply::Handle(0), Reply::Performed, Reply::Performed, Reply::Value(1)];
    match replay(session, replies).1 {
        Progress::Done(Ok(shader)) => assert_eq!(shader.id(), 0),
        other => panic!("not compiled: {:?}", other),
    }
}

#[test]
fn log_that_is_not_text_is_read_with_replacement_characters() {
    let session = Shader::from_vert_source(&source(BROKEN));
    let replies = vec![
        Reply::Handle(5),
        Reply::Performed,
        Reply::Performed,
        Reply::Value(0),
        Reply::Value(6),
        Reply::Log(vec![b'b', b'a', b'd', 0xff, b'!', 0]),
        Reply::Performed,
    ];
    let (calls, progress) = replay(session, replies);
    assert_eq!(calls[5], Call::GetShaderInfoLog { shader: 5, capacity: 6, buffer: vec![b' '; 6] });
    match progress {
        Progress::Done(Err(message)) => assert_eq!(message, "bad\u{fffd}!\0"),
        other => panic!("not refused: {:?}", other),
    }
}

#[test]
fn log_shorter_than_its_buffer_keeps_the_spaces() {
    let session = Shader::from_vert_source(&source(BROKEN));
    let replies = vec![
        Reply::Handle(5),
        Reply::Performed,
        Reply::Performed,
        Reply::Value(0),
        Reply::Value(8),
        Reply::Log(b"oops\0   ".to_vec()),
        Reply::Performed,
    ];
    match replay(session, replies).1 {
        Progress::Done(Err(message)) => assert_eq!(message, "oops\0   "),
        other => panic!("not refused: {:?}", other),
    }
}

#[test]
fn empty_log_gives_an_empty_message() {
    let session = Shader::from_vert_source(&source(BROKEN));
    let replies = vec![
        Reply::Handle(5),
        Reply::Performed,
        Reply::Performed,
        Reply::Value(0),
        Reply::Value(0),
        Reply::Log(Vec::new()),
        Reply::Performed,
    ];
    let (calls, progress) = replay(session, replies);
    assert_eq!(calls[5], Call::GetShaderInfoLog { shader: 5, capacity: 0, buffer: Vec::new() });
    match progress {
        Progress::Done(Err(message)) => assert_eq!(message, ""),
        other => panic!("not refused: {:?}", other),
    }
}

#[test]
fn negative_log_length_asks_for_an_empty_buffer() {
    let session = Shader::from_vert_source(&source(BROKEN));
    let replies = vec![
        Reply::Handle(5),
        Reply::Performed,
        Reply::Performed,
        Reply::Value(0),
        Reply::Value(-3),
    ];
    match replay(session, replies).1 {
        Progress::Pending(session) => assert_eq!(
            session.request(),
            Call::GetShaderInfoLog { shader: 5, capacity: 0, buffer: Vec::new() }
        ),
        other => panic!("over too early: {:?}", other),
    }
}

#[test]
fn reply_of_another_kind_is_passed_over() {
    let session = Shader::from_vert_source(&source(VERTEX));
    let session = match session.advance(Reply::Performed) {
        Progress::Pending(session) => session,
        other => panic!("over too early: {:?}", other),
    };
    assert_eq!(session.request(), Call::CreateShader { kind: 0x8B31 });
    let session = match session.advance(Reply::Value(1)) {
        Progress::Pending(session) => session,
        other => panic!("over too early: {:?}", other),
    };
    assert_eq!(session.request(), Call::CreateShader { kind: 0x8B31 });
    let session = match session.advance(Reply::Handle(2)) {
        Progress::Pending(session) => session,
        other => panic!("over too early: {:?}", other),
    };
    let session = match session.advance(Reply::Handle(8)) {
        Progress::Pending(session) => session,
        other => panic!("over too early: {:?}", other),
    };
    assert_eq!(session.request(), Call::ShaderSource { shader: 2, source: VERTEX.to_vec() });
}

#[test]
fn compilation_is_over_within_seven_calls() {
    let mut driver = driver();
    let _ = compile(&mut driver, Shader::from_vert_source(&source(VERTEX)));
    assert_eq!(driver.performed.len(), 4);
    let mut driver = self::driver();
    let _ = compile(&mut driver, Shader::from_vert_source(&source(BROKEN)));
    assert_eq!(driver.performed.len(), 7);
}

#[test]
fn matching_shaders_link_into_a_program() {
    let mut driver = driver();
    let vertex = compile(&mut driver, Shader::from_vert_source(&source(VERTEX))).unwrap();
    let fragment = compile(&mut driver, Shader::from_frag_source(&source(FRAGMENT))).unwrap();
    driver.performed.clear();
    let shaders = [vertex, fragment];
    let program = link(&mut driver, Program::from_shaders(&shaders))
        .expect("the driver links the shaders");
    assert_ne!(program.id(), 0);
    assert_eq!(program.id(), 3);
    assert_eq!(
        driver.performed,
        vec![
            Call::CreateProgram,
            Call::AttachShader { program: 3, shader: 1 },
            Call::AttachShader { program: 3, shader: 2 },
            Call::LinkProgram { program: 3 },
            Call::GetProgramiv { program: 3, parameter: 0x8B82, preset: 1 },
            Call::DetachShader { program: 3, shader: 1 },
            Call::DetachShader { program: 3, shader: 2 },
        ]
    );
    assert!(driver.attached.is_empty());
    let activate = program.set_used();
    assert_eq!(activate, Call::UseProgram { program: 3 });
    assert_eq!(perform(&mut driver, activate), Reply::Performed);
    assert_eq!(driver.used, Some(3));
    let release = program.release();
    assert_eq!(release, Call::DeleteProgram { program: 3 });
    perform(&mut driver, release);
    assert!(driver.live_programs.is_empty());
    assert_eq!(driver.live_shaders, vec![1, 2]);
}

#[test]
fn mismatched_shaders_give_the_drivers_log() {
    let mut driver = driver();
    let vertex = compile(&mut driver, Shader::from_vert_source(&source(VERTEX))).unwrap();
    let fragment = compile(&mut driver, Shader::from_frag_source(&source(UNFED))).unwrap();
    driver.performed.clear();
    driver.link_fails = true;
    let shaders = vec![vertex, fragment];
    let failure = link(&mut driver, Program::from_shaders(&shaders))
        .expect_err("the driver refuses to link");
    assert!(!failure.is_empty());
    assert_eq!(failure, "error: fragment shader input `shade' has no matching output\n\0");
    assert_eq!(
        driver.performed,
        vec![
            Call::CreateProgram,
            Call::AttachShader { program: 3, shader: 1 },
            Call::AttachShader { program: 3, shader: 2 },
            Call::LinkProgram { program: 3 },
            Call::GetProgramiv { program: 3, parameter: 0x8B82, preset: 1 },
            Call::GetProgramiv { program: 3, parameter: 0x8B84, preset: 0 },
            Call::GetProgramInfoLog {
                program: 3,
                capacity: LINK_LOG.len() as i32,
                buffer: vec![b' '; LINK_LOG.len()],
            },
            Call::DeleteProgram { program: 3 },
        ]
    );
    assert!(driver.live_programs.is_empty());
    assert_eq!(driver.live_shaders, vec![1, 2]);
}

#[test]
fn shaders_outlive_the_program_built_from_them() {
    let mut driver = driver();
    let vertex = compile(&mut driver, Shader::from_vert_source(&source(VERTEX))).unwrap();
    let fragment = compile(&mut driver, Shader::from_frag_source(&source(FRAGMENT))).unwrap();
    let shaders = vec![vertex, fragment];
    let program = link(&mut driver, Program::from_shaders(&shaders)).unwrap();
    assert_eq!(shaders[0].id(), 1);
    assert_eq!(shaders[1].id(), 2);
    assert_eq!(driver.live_shaders, vec![1, 2]);
    assert!(driver.freed.is_empty());
    let again = link(&mut driver, Program::from_shaders(&shaders)).unwrap();
    assert_ne!(again.id(), program.id());
    for shader in shaders {
        perform(&mut driver, shader.release());
    }
    assert!(driver.live_shaders.is_empty());
    assert_eq!(driver.live_programs, vec![program.id(), again.id()]);
}

#[test]
fn each_of_many_shaders_is_freed_once() {
    let mut driver = driver();
    let mut shaders = Vec::new();
    for _ in 0..5 {
        shaders.push(compile(&mut driver, Shader::from_vert_source(&source(VERTEX))).unwrap());
    }
    assert_eq!(driver.live_shaders, vec![1, 2, 3, 4, 5]);
    driver.performed.clear();
    for shader in shaders {
        perform(&mut driver, shader.release());
    }
    assert_eq!(
        driver.performed,
        vec![
            Call::DeleteShader { shader: 1 },
            Call::DeleteShader { shader: 2 },
            Call::DeleteShader { shader: 3 },
            Call::DeleteShader { shader: 4 },
            Call::DeleteShader { shader: 5 },
        ]
    );
    assert_eq!(driver.freed, vec![1, 2, 3, 4, 5]);
    assert!(driver.live_shaders.is_empty());
}

#[test]
fn linking_no_shaders_attaches_and_detaches_nothing() {
    let none: Vec<Shader> = Vec::new();
    let replies = vec![Reply::Handle(4), Reply::Performed, Reply::Value(1)];
    let (calls, progress) = replay_link(Program::from_shaders(&none), replies);
    assert_eq!(
        calls,
        vec![
            Call::CreateProgram,
            Call::LinkProgram { program: 4 },
            Call::GetProgramiv { program: 4, parameter: 0x8B82, preset: 1 },
        ]
    );
    match progress {
        Progress::Done(Ok(program)) => assert_eq!(program.id(), 4),
        other => panic!("not linked: {:?}", other),
    }
}

#[test]
fn shaders_are_attached_in_the_order_given() {
    let shaders = vec![shader_with_handle(30), shader_with_handle(10), shader_with_handle(20)];
    let mut replies = vec![Reply::Handle(7)];
    replies.extend((0..3).map(|_| Reply::Performed));
    replies.push(Reply::Performed);
    replies.push(Reply::Value(1));
    replies.extend((0..3).map(|_| Reply::Performed));
    let (calls, progress) = replay_link(Program::from_shaders(&shaders), replies);
    assert_eq!(
        calls,
        vec![
            Call::CreateProgram,
            Call::AttachShader { program: 7, shader: 30 },
            Call::AttachShader { program: 7, shader: 10 },
            Call::AttachShader { program: 7, shader: 20 },
            Call::LinkProgram { program: 7 },
            Call::GetProgramiv { program: 7, parameter: 0x8B82, preset: 1 },
            Call::DetachShader { program: 7, shader: 30 },
            Call::DetachShader { program: 7, shader: 10 },
            Call::DetachShader { program: 7, shader: 20 },
        ]
    );
    match progress {
        Progress::Done(Ok(program)) => assert_eq!(program.id(), 7),
        other => panic!("not linked: {:?}", other),
    }
}

#[test]
fn link_log_that_is_not_text_is_read_with_replacement_characters() {
    let shaders = vec![shader_with_handle(1)];
    let replies = vec![
        Reply::Handle(2),
        Reply::Performed,
        Reply::Performed,
        Reply::Value(0),
        Reply::Value(4),
        Reply::Log(vec![0xc3, 0x28, b'x', 0]),
        Reply::Performed,
    ];
    let (calls, progress) = replay_link(Program::from_shaders(&shaders), replies);
    assert_eq!(calls.len(), 7);
    assert_eq!(calls[6], Call::DeleteProgram { program: 2 });
    match progress {
        Progress::Done(Err(message)) => assert_eq!(message, "\u{fffd}(x\0"),
        other => panic!("not refused: {:?}", other),
    }
}

#[test]
fn linking_passes_over_a_reply_of_another_kind() {
    let shaders = vec![shader_with_handle(1)];
    let session = Program::from_shaders(&shaders);
    let session = match session.advance(Reply::Log(vec![1, 2, 3])) {
        Progress::Pending(session) => session,
        other => panic!("over too early: {:?}", other),
    };
    assert_eq!(session.request(), Call::CreateProgram);
    let session = match session.advance(Reply::Handle(6)) {
        Progress::Pending(session) => session,
        other => panic!("over too early: {:?}", other),
    };
    let session = match session.advance(Reply::Value(0)) {
        Progress::Pending(session) => session,
        other => panic!("over too early: {:?}", other),
    };
    assert_eq!(session.request(), Call::AttachShader { program: 6, shader: 1 });
}

#[test]
fn linking_is_over_within_its_bound() {
    let mut driver = driver();
    let mut shaders = Vec::new();
    for _ in 0..4 {
        shaders.push(compile(&mut driver, Shader::from_vert_source(&source(VERTEX))).unwrap());
    }
    driver.performed.clear();
    let _ = link(&mut driver, Program::from_shaders(&shaders));
    assert_eq!(driver.performed.len(), 2 * 4 + 3);
    assert!(driver.performed.len() <= 2 * 4 + 6);
    driver.performed.clear();
    driver.link_fails = true;
    let _ = link(&mut driver, Program::from_shaders(&shaders));
    assert_eq!(driver.performed.len(), 4 + 6);
    assert!(driver.performed.len() <= 2 * 4 + 6);
}

#[test]
fn release_all_frees_each_shader_of_a_collection_once() {
    let shaders = vec![shader_with_handle(4), shader_with_handle(9), shader_with_handle(2)];
    let calls = Shader::release_all(shaders);
    assert_eq!(
        calls,
        vec![
            Call::DeleteShader { shader: 4 },
            Call::DeleteShader { shader: 9 },
            Call::DeleteShader { shader: 2 },
        ]
    );
    let mut driver = driver();
    driver.live_shaders = vec![2, 4, 9];
    for call in calls {
        perform(&mut driver, call);
    }
    assert!(driver.live_shaders.is_empty());
    assert_eq!(driver.freed, vec![4, 9, 2]);
}

#[test]
fn release_all_of_nothing_makes_no_call() {
    assert_eq!(Shader::release_all(Vec::new()), Vec::<Call>::new());
}

#[test]
fn linking_by_handles_is_linking_by_shaders() {
    let shaders = vec![shader_with_handle(11), shader_with_handle(12)];
    let replies = || {
        vec![
            Reply::Handle(20),
            Reply::Performed,
            Reply::Performed,
            Reply::Performed,
            Reply::Value(1),
            Reply::Performed,
            Reply::Performed,
        ]
    };
    let (by_shaders, first) = replay_link(Program::from_shaders(&shaders), replies());
    let (by_handles, second) = replay_link(Linking::of_handles(vec![11, 12]), replies());
    assert_eq!(by_shaders, by_handles);
    assert_eq!(by_handles.len(), 7);
    match (first, second) {
        (Progress::Done(Ok(first)), Progress::Done(Ok(second))) => assert_eq!(first, second),
        other => panic!("not linked: {:?}", other),
    }
}
