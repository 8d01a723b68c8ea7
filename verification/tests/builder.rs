use render_core::builder::BuildPhase;
use render_core::builder::BuildStep;
use render_core::builder::DriverQuery;
use render_core::builder::DriverReply;
use render_core::program::ActiveUniform;
use render_core::program::ProgramError;
use render_core::program::UniformId;
use render_core::window::SetupStep;
use render_core::window::WindowReply;
use render_core::Command;
use render_core::Program;
use render_core::ProgramBuilder;
use render_core::Renderer;
use render_core::ShaderKind;
use render_core::Window;

const VERTEX_SRC: &str = "valid minimal pass-through";
const FRAGMENT_SRC: &str = "outputs constant color";

fn open_window() -> Window {
    let replies = vec![
        WindowReply::Nothing,
        WindowReply::Status(0),
        WindowReply::Statuses(0, 0, 0),
        WindowReply::Created(true),
        WindowReply::Created(true),
    ];
    let mut setup = Window::new(640, 480);
    for reply in replies {
        match setup.advance(reply) {
            SetupStep::Ask { setup: next, .. } => setup = next,
            SetupStep::Done { result } => return result.unwrap(),
        }
    }
    panic!("the setup did not end");
}

fn fresh_renderer() -> Renderer {
    let mut renderer = open_window().create_renderer(Ok(())).unwrap();
    renderer.take_commands();
    renderer
}

/// Runs a build against a driver that answers with `replies` in turn, and
/// returns the questions asked, the calls issued and the outcome.
fn run(
    replies: Vec<DriverReply>,
) -> (Vec<DriverQuery>, Vec<Command>, Option<Result<Program, ProgramError>>) {
    let mut renderer = fresh_renderer();
    let mut builder = renderer.create_shader_program(VERTEX_SRC, FRAGMENT_SRC);
    let mut queries = Vec::new();
    let mut replies = replies.into_iter();
    let mut reply = DriverReply::Nothing;
    loop {
        match builder.build(&mut renderer, reply) {
            BuildStep::Ask { builder: next, query } => {
                queries.push(query);
                builder = next;
                match replies.next() {
                    Some(answer) => reply = answer,
                    None => return (queries, renderer.take_commands(), None),
                }
            }
            BuildStep::Done { result } => {
                assert!(replies.next().is_none());
                return (queries, renderer.take_commands(), Some(result));
            }
        }
    }
}

fn source(shader: u32, text: &str) -> Command {
    Command::ShaderSource { shader, source: text.to_string() }
}

#[test]
fn a_new_build_has_asked_nothing() {
    let builder = ProgramBuilder::new(VERTEX_SRC, FRAGMENT_SRC);
    assert_eq!(builder.phase(), BuildPhase::Unlinked);
}

#[test]
fn the_first_turn_asks_for_a_program_and_issues_nothing() {
    let (queries, commands, outcome) = run(vec![]);
    assert_eq!(queries, vec![DriverQuery::CreateProgram]);
    assert!(commands.is_empty());
    assert!(outcome.is_none());
}

#[test]
fn a_build_without_uniforms_succeeds_with_an_empty_cache() {
    let (queries, commands, outcome) = run(vec![
        DriverReply::Name(10),
        DriverReply::Name(11),
        DriverReply::Status(true),
        DriverReply::Name(12),
        DriverReply::Status(true),
        DriverReply::Status(true),
        DriverReply::Uniforms(vec![]),
    ]);
    assert_eq!(
        queries,
        vec![
            DriverQuery::CreateProgram,
            DriverQuery::CreateShader { kind: ShaderKind::Vertex },
            DriverQuery::CompileStatus { shader: 11 },
            DriverQuery::CreateShader { kind: ShaderKind::Fragment },
            DriverQuery::CompileStatus { shader: 12 },
            DriverQuery::LinkStatus { program: 10 },
            DriverQuery::ActiveUniforms { program: 10 },
        ]
    );
    assert_eq!(
        commands,
        vec![
            source(11, VERTEX_SRC),
            Command::CompileShader { shader: 11 },
            source(12, FRAGMENT_SRC),
            Command::CompileShader { shader: 12 },
            Command::AttachShader { program: 10, shader: 11 },
            Command::AttachShader { program: 10, shader: 12 },
            Command::LinkProgram { program: 10 },
            Command::DetachShader { program: 10, shader: 11 },
            Command::DetachShader { program: 10, shader: 12 },
            Command::DeleteShader { shader: 12 },
            Command::DeleteShader { shader: 11 },
        ]
    );
    let mut program = outcome.unwrap().ok().unwrap();
    assert_eq!(program.id(), 10);
    assert_eq!(program.location("color"), None);
    program.update_uniforms(vec![]);
    assert_eq!(program.location("color"), None);
    assert_eq!(program.location(""), None);
}

#[test]
fn a_build_caches_the_uniforms_that_the_driver_lists() {
    let (_, _, outcome) = run(vec![
        DriverReply::Name(10),
        DriverReply::Name(11),
        DriverReply::Status(true),
        DriverReply::Name(12),
        DriverReply::Status(true),
        DriverReply::Status(true),
        DriverReply::Uniforms(vec![
            ActiveUniform { name: b"color".to_vec(), location: 0 },
            ActiveUniform { name: b"transform".to_vec(), location: 3 },
        ]),
    ]);
    let program = outcome.unwrap().ok().unwrap();
    assert_eq!(program.location("color"), Some(UniformId(0)));
    assert_eq!(program.location("transform"), Some(UniformId(3)));
    assert_eq!(program.location("undeclared_name"), None);
}

#[test]
fn no_program_object_ends_the_build_at_once() {
    let (queries, commands, outcome) = run(vec![DriverReply::Name(0)]);
    assert_eq!(queries, vec![DriverQuery::CreateProgram]);
    assert!(commands.is_empty());
    assert!(matches!(outcome, Some(Err(ProgramError::ProgramCreation))));
}

#[test]
fn no_vertex_shader_object_ends_the_build_and_deletes_the_program() {
    let (queries, commands, outcome) = run(vec![DriverReply::Name(10), DriverReply::Name(0)]);
    assert_eq!(
        queries,
        vec![DriverQuery::CreateProgram, DriverQuery::CreateShader { kind: ShaderKind::Vertex }]
    );
    assert_eq!(commands, vec![Command::DeleteProgram { program: 10 }]);
    assert!(matches!(outcome, Some(Err(ProgramError::ShaderCreation))));
}

#[test]
fn no_fragment_shader_object_ends_the_build_and_deletes_what_was_made() {
    let (_, commands, outcome) = run(vec![
        DriverReply::Name(10),
        DriverReply::Name(11),
        DriverReply::Status(true),
        DriverReply::Name(0),
    ]);
    assert_eq!(
        commands,
        vec![
            source(11, VERTEX_SRC),
            Command::CompileShader { shader: 11 },
            Command::DeleteShader { shader: 11 },
            Command::DeleteProgram { program: 10 },
        ]
    );
    assert!(matches!(outcome, Some(Err(ProgramError::ShaderCreation))));
}

#[test]
fn a_vertex_shader_that_does_not_compile_ends_the_build_with_its_log() {
    let (queries, commands, outcome) = run(vec![
        DriverReply::Name(10),
        DriverReply::Name(11),
        DriverReply::Status(false),
        DriverReply::InfoLog(b"0:1(1): error: syntax error".to_vec()),
    ]);
    assert_eq!(
        queries,
        vec![
            DriverQuery::CreateProgram,
            DriverQuery::CreateShader { kind: ShaderKind::Vertex },
            DriverQuery::CompileStatus { shader: 11 },
            DriverQuery::ShaderInfoLog { shader: 11 },
        ]
    );
    assert_eq!(
        commands,
        vec![
            source(11, VERTEX_SRC),
            Command::CompileShader { shader: 11 },
            Command::DeleteShader { shader: 11 },
            Command::DeleteProgram { program: 10 },
        ]
    );
    match outcome {
        Some(Err(ProgramError::ShaderCompilation(log))) => {
            assert_eq!(log, "0:1(1): error: syntax error");
            assert!(!log.is_empty());
        }
        _ => panic!("the build did not end with the compile error"),
    }
}

#[test]
fn a_fragment_shader_that_does_not_compile_ends_the_build_with_its_log() {
    let (queries, commands, outcome) = run(vec![
        DriverReply::Name(10),
        DriverReply::Name(11),
        DriverReply::Status(true),
        DriverReply::Name(12),
        DriverReply::Status(false),
        DriverReply::InfoLog(b"bad fragment\0".to_vec()),
    ]);
    assert_eq!(queries.last(), Some(&DriverQuery::ShaderInfoLog { shader: 12 }));
    assert_eq!(
        commands,
        vec![
            source(11, VERTEX_SRC),
            Command::CompileShader { shader: 11 },
            source(12, FRAGMENT_SRC),
            Command::CompileShader { shader: 12 },
            Command::DeleteShader { shader: 12 },
            Command::DeleteShader { shader: 11 },
            Command::DeleteProgram { program: 10 },
        ]
    );
    match outcome {
        Some(Err(ProgramError::ShaderCompilation(log))) => assert_eq!(log, "bad fragment\0"),
        _ => panic!("the build did not end with the compile error"),
    }
}

#[test]
fn a_program_that_does_not_link_ends_the_build_with_its_log() {
    let (queries, commands, outcome) = run(vec![
        DriverReply::Name(10),
        DriverReply::Name(11),
        DriverReply::Status(true),
        DriverReply::Name(12),
        DriverReply::Status(true),
        DriverReply::Status(false),
        DriverReply::InfoLog(b"error: fragment shader input `uv' has no matching output".to_vec()),
    ]);
    assert_eq!(
        &queries[5..],
        &[DriverQuery::LinkStatus { program: 10 }, DriverQuery::ProgramInfoLog { program: 10 }]
    );
    assert_eq!(
        &commands[4..],
        &[
            Command::AttachShader { program: 10, shader: 11 },
            Command::AttachShader { program: 10, shader: 12 },
            Command::LinkProgram { program: 10 },
            Command::DetachShader { program: 10, shader: 11 },
            Command::DetachShader { program: 10, shader: 12 },
            Command::DeleteShader { shader: 12 },
            Command::DeleteShader { shader: 11 },
            Command::DeleteProgram { program: 10 },
        ]
    );
    match outcome {
        Some(Err(ProgramError::ProgramLinking(log))) => {
            assert_eq!(log, "error: fragment shader input `uv' has no matching output");
            assert!(!log.is_empty());
        }
        _ => panic!("the build did not end with the link error"),
    }
}

#[test]
fn a_log_that_is_not_utf8_ends_the_build_with_a_conversion_error() {
    let (_, _, outcome) = run(vec![
        DriverReply::Name(10),
        DriverReply::Name(11),
        DriverReply::Status(false),
        DriverReply::InfoLog(vec![b'e', 0xC3, 0x28]),
    ]);
    assert!(matches!(outcome, Some(Err(ProgramError::ErrorMsgConversion(_)))));
    let (_, _, outcome) = run(vec![
        DriverReply::Name(10),
        DriverReply::Name(11),
        DriverReply::Status(true),
        DriverReply::Name(12),
        DriverReply::Status(true),
        DriverReply::Status(false),
        DriverReply::InfoLog(vec![0xFF]),
    ]);
    assert!(matches!(outcome, Some(Err(ProgramError::ErrorMsgConversion(_)))));
}

#[test]
fn an_empty_log_gives_an_empty_text() {
    let (_, _, outcome) = run(vec![
        DriverReply::Name(10),
        DriverReply::Name(11),
        DriverReply::Status(false),
        DriverReply::InfoLog(vec![]),
    ]);
    match outcome {
        Some(Err(ProgramError::ShaderCompilation(log))) => assert_eq!(log, ""),
        _ => panic!("the build did not end with the compile error"),
    }
}

#[test]
fn an_answer_of_another_kind_reads_as_nothing_given() {
    let (_, _, outcome) = run(vec![DriverReply::Status(true)]);
    assert!(matches!(outcome, Some(Err(ProgramError::ProgramCreation))));
    let (_, _, outcome) = run(vec![DriverReply::Name(10), DriverReply::InfoLog(vec![1])]);
    assert!(matches!(outcome, Some(Err(ProgramError::ShaderCreation))));
    let (queries, _, _) = run(vec![
        DriverReply::Name(10),
        DriverReply::Name(11),
        DriverReply::Name(1),
    ]);
    assert_eq!(queries.last(), Some(&DriverQuery::ShaderInfoLog { shader: 11 }));
    let (_, _, outcome) = run(vec![
        DriverReply::Name(10),
        DriverReply::Name(11),
        DriverReply::Status(false),
        DriverReply::Nothing,
    ]);
    match outcome {
        Some(Err(ProgramError::ShaderCompilation(log))) => assert_eq!(log, ""),
        _ => panic!("the build did not end with the compile error"),
    }
    let (_, _, outcome) = run(vec![
        DriverReply::Name(10),
        DriverReply::Name(11),
        DriverReply::Status(true),
        DriverReply::Name(12),
        DriverReply::Status(true),
        DriverReply::Status(true),
        DriverReply::Nothing,
    ]);
    let program = outcome.unwrap().ok().unwrap();
    assert_eq!(program.id(), 10);
    assert_eq!(program.location("color"), None);
}
