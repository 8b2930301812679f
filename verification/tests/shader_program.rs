use render_core::command::{Command, ProgramValue, ShaderType};
use render_core::matrix4::Matrix4;
use render_core::program::{LinkError, LinkState, ShaderProgram};
use render_core::shader::{CompileError, CompileState, Shader};
use render_core::status::{fit, Phase, Query, Reply, Verdict};
use render_core::vector2::Vector2;
use render_core::vector3::Vector3;
use render_core::vector4::Vector4;

fn compiled(id: u32, stage: ShaderType) -> Shader {
    let (compilation, _) = Shader::from_source::<f32>(id, b"void main() {}", stage);
    match compilation.advance::<f32>(Reply::Status(1)).0 {
        CompileState::Compiled(shader) => shader,
        _ => panic!("a non-zero status compiles"),
    }
}

fn linked(id: u32) -> ShaderProgram {
    let vertex = compiled(1, ShaderType::VertexShader);
    let fragment = compiled(2, ShaderType::FragmentShader);
    let (linking, _) = ShaderProgram::from_shaders::<f32>(id, &[&vertex, &fragment]);
    match linking.advance::<f32>(Reply::Status(1)).0 {
        LinkState::Linked(program) => program,
        _ => panic!("a non-zero status links"),
    }
}

#[test]
fn compile_hands_over_the_source_and_waits_for_the_status() {
    let source = b"#version 330 core\nvoid main() {}\n";
    let (compilation, commands) =
        Shader::from_source::<f32>(7, source, ShaderType::FragmentShader);
    assert_eq!(
        commands,
        vec![
            Command::ShaderSource { shader: 7, source: source.to_vec() },
            Command::CompileShader { shader: 7 },
        ]
    );
    assert_eq!(compilation.get_id(), 7);
    assert_eq!(compilation.query(), Query::Status);
}

#[test]
fn compile_success_gives_the_shader() {
    let (compilation, _) =
        Shader::from_source::<f32>(7, b"void main() {}", ShaderType::VertexShader);
    let (state, commands) = compilation.advance::<f32>(Reply::Status(1));
    assert!(commands.is_empty());
    match state {
        CompileState::Compiled(shader) => {
            assert_eq!(shader.get_id(), 7);
            assert_eq!(shader.get_stage(), ShaderType::VertexShader);
            let released: Vec<Command<f32>> = shader.release();
            assert_eq!(released, vec![Command::DeleteShader { shader: 7 }]);
        }
        _ => panic!("a non-zero status compiles"),
    }
}

#[test]
fn compile_failure_returns_the_log_and_releases_the_shader() {
    let log = b"0:1(1): error: syntax error, unexpected NEW_IDENTIFIER\n\0".to_vec();
    let (compilation, _) =
        Shader::from_source::<f32>(3, b"this is not a shader", ShaderType::VertexShader);
    let (state, commands) = compilation.advance::<f32>(Reply::Status(0));
    assert!(commands.is_empty());
    let compilation = match state {
        CompileState::Pending(compilation) => compilation,
        _ => panic!("a zero status asks for the log"),
    };
    assert_eq!(compilation.query(), Query::LogLength);
    let (state, commands) = compilation.advance::<f32>(Reply::LogLength(log.len() as i32));
    assert!(commands.is_empty());
    let compilation = match state {
        CompileState::Pending(compilation) => compilation,
        _ => panic!("a positive length asks for the bytes"),
    };
    assert_eq!(compilation.query(), Query::Log { length: log.len() });
    let (state, commands) = compilation.advance::<f32>(Reply::Log(log.clone()));
    assert_eq!(commands, vec![Command::DeleteShader { shader: 3 }]);
    match state {
        CompileState::Failed(error) => {
            assert!(!error.message.is_empty());
            assert_eq!(error, CompileError { message: log });
        }
        _ => panic!("the log ends the compilation"),
    }
}

#[test]
fn compile_ignores_an_answer_to_another_question() {
    let (compilation, _) = Shader::from_source::<f32>(3, b"x", ShaderType::VertexShader);
    let (state, commands) = compilation.advance::<f32>(Reply::Log(vec![1, 2, 3]));
    assert!(commands.is_empty());
    match state {
        CompileState::Pending(compilation) => assert_eq!(compilation.query(), Query::Status),
        _ => panic!("an answer to another question changes nothing"),
    }
}

#[test]
fn status_protocol_transitions() {
    assert_eq!(Phase::AwaitStatus.query(), Query::Status);
    assert_eq!(Phase::AwaitLogLength.query(), Query::LogLength);
    assert_eq!(Phase::AwaitLog { length: 4 }.query(), Query::Log { length: 4 });
    assert_eq!(Phase::AwaitStatus.advance(Reply::Status(1)), Verdict::Passed);
    assert_eq!(Phase::AwaitStatus.advance(Reply::Status(-1)), Verdict::Passed);
    assert_eq!(
        Phase::AwaitStatus.advance(Reply::Status(0)),
        Verdict::Pending(Phase::AwaitLogLength)
    );
    assert_eq!(
        Phase::AwaitStatus.advance(Reply::LogLength(3)),
        Verdict::Pending(Phase::AwaitStatus)
    );
    assert_eq!(
        Phase::AwaitLogLength.advance(Reply::LogLength(12)),
        Verdict::Pending(Phase::AwaitLog { length: 12 })
    );
    assert_eq!(Phase::AwaitLogLength.advance(Reply::LogLength(0)), Verdict::Failed(vec![]));
    assert_eq!(Phase::AwaitLogLength.advance(Reply::LogLength(-5)), Verdict::Failed(vec![]));
    assert_eq!(
        Phase::AwaitLogLength.advance(Reply::Status(1)),
        Verdict::Pending(Phase::AwaitLogLength)
    );
    assert_eq!(
        Phase::AwaitLog { length: 3 }.advance(Reply::Log(vec![b'a', b'b', b'c'])),
        Verdict::Failed(vec![b'a', b'b', b'c'])
    );
    assert_eq!(
        Phase::AwaitLog { length: 3 }.advance(Reply::Status(0)),
        Verdict::Pending(Phase::AwaitLog { length: 3 })
    );
}

#[test]
fn log_is_exactly_as_long_as_asked_for() {
    assert_eq!(fit(&vec![b'a', b'b', b'c', b'd'], 2), vec![b'a', b'b']);
    assert_eq!(fit(&vec![b'a'], 3), vec![b'a', b' ', b' ']);
    assert_eq!(fit(&vec![], 0), Vec::<u8>::new());
    assert_eq!(
        Phase::AwaitLog { length: 2 }.advance(Reply::Log(vec![b'a', b'b', b'c'])),
        Verdict::Failed(vec![b'a', b'b'])
    );
    assert_eq!(
        Phase::AwaitLog { length: 4 }.advance(Reply::Log(vec![b'a', b'b'])),
        Verdict::Failed(vec![b'a', b'b', b' ', b' '])
    );
}

#[test]
fn link_attaches_in_order_then_links() {
    let vertex = compiled(11, ShaderType::VertexShader);
    let fragment = compiled(12, ShaderType::FragmentShader);
    let (linking, commands) = ShaderProgram::from_shaders::<f32>(20, &[&vertex, &fragment]);
    assert_eq!(
        commands,
        vec![
            Command::AttachShader { program: 20, shader: 11 },
            Command::AttachShader { program: 20, shader: 12 },
            Command::LinkProgram { program: 20 },
        ]
    );
    assert_eq!(linking.get_id(), 20);
    assert_eq!(linking.query(), Query::Status);
}

#[test]
fn link_success_detaches_every_shader() {
    let vertex = compiled(11, ShaderType::VertexShader);
    let geometry = compiled(13, ShaderType::VertexShader);
    let fragment = compiled(12, ShaderType::FragmentShader);
    let (linking, _) = ShaderProgram::from_shaders::<f32>(20, &[&vertex, &geometry, &fragment]);
    let (state, commands) = linking.advance::<f32>(Reply::Status(1));
    assert_eq!(
        commands,
        vec![
            Command::DetachShader { program: 20, shader: 11 },
            Command::DetachShader { program: 20, shader: 13 },
            Command::DetachShader { program: 20, shader: 12 },
        ]
    );
    match state {
        LinkState::Linked(program) => {
            assert_eq!(program.get_id(), 20);
            let released: Vec<Command<f32>> = program.release();
            assert_eq!(released, vec![Command::DeleteProgram { program: 20 }]);
        }
        _ => panic!("a non-zero status links"),
    }
}

#[test]
fn link_failure_returns_the_log_and_releases_the_program() {
    let log = b"error: fragment shader input `colour` has no matching output\n\0".to_vec();
    let vertex = compiled(11, ShaderType::VertexShader);
    let fragment = compiled(12, ShaderType::FragmentShader);
    let (linking, _) = ShaderProgram::from_shaders::<f32>(20, &[&vertex, &fragment]);
    let linking = match linking.advance::<f32>(Reply::Status(0)).0 {
        LinkState::Pending(linking) => linking,
        _ => panic!("a zero status asks for the log"),
    };
    assert_eq!(linking.query(), Query::LogLength);
    let linking = match linking.advance::<f32>(Reply::LogLength(log.len() as i32)).0 {
        LinkState::Pending(linking) => linking,
        _ => panic!("a positive length asks for the bytes"),
    };
    assert_eq!(linking.query(), Query::Log { length: log.len() });
    let (state, commands) = linking.advance::<f32>(Reply::Log(log.clone()));
    assert_eq!(commands, vec![Command::DeleteProgram { program: 20 }]);
    match state {
        LinkState::Failed(error) => {
            assert!(!error.message.is_empty());
            assert_eq!(error, LinkError { message: log });
        }
        _ => panic!("the log ends the link"),
    }
}

#[test]
fn use_program_makes_the_program_current() {
    let program = linked(20);
    let commands: Vec<Command<f32>> = program.use_program();
    assert_eq!(commands, vec![Command::UseProgram { program: 20 }]);
}

#[test]
fn set_value_activates_the_program_every_time() {
    let program = linked(20);
    let commands = program.set_value("brightness", ProgramValue::Float(0.5f32));
    assert_eq!(
        commands,
        vec![
            Command::UseProgram { program: 20 },
            Command::SetUniform {
                program: 20,
                name: "brightness".to_string(),
                value: ProgramValue::Float(0.5),
            },
        ]
    );
}

#[test]
fn set_value_carries_each_kind_of_value() {
    let program = linked(4);
    let column = Vector4::new(1.0f32, 0.0, 0.0, 0.0);
    let values = vec![
        ProgramValue::Int(3),
        ProgramValue::Float(1.5),
        ProgramValue::Vec2(Vector2::new(1.0, 2.0)),
        ProgramValue::Vec3(Vector3::new(1.0, 2.0, 3.0)),
        ProgramValue::Vec4(Vector4::new(1.0, 2.0, 3.0, 4.0)),
        ProgramValue::Mat4(Matrix4::from_columns(column, column, column, column)),
    ];
    for value in values {
        let commands = program.set_value("u", value);
        assert_eq!(commands.len(), 2);
        assert_eq!(
            commands[1],
            Command::SetUniform { program: 4, name: "u".to_string(), value }
        );
    }
}
