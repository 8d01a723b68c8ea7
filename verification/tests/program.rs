use render_core::program::ActiveUniform;
use render_core::program::ProgramError;
use render_core::program::Shader;
use render_core::program::UniformId;
use render_core::program::UniformType;
use render_core::program::UNIFORM_NAME_CAPACITY;
use render_core::window::SetupStep;
use render_core::window::WindowReply;
use render_core::Command;
use render_core::FloatBits;
use render_core::Mat4Bits;
use render_core::Program;
use render_core::Renderer;
use render_core::Vec2Bits;
use render_core::Window;

fn open_window() -> Window {
    let replies = vec![
        WindowReply::Nothing,
        WindowReply::Status(0),
        WindowReply::Statuses(0, 0, 0),
        WindowReply::Created(true),
        WindowReply::Created(true),
    ];
    let mut setup = Window::new(640, 480);
    for reply in replies {
        match setup.advance(reply) {
            SetupStep::Ask { setup: next, .. } => setup = next,
            SetupStep::Done { result } => return result.unwrap(),
        }
    }
    panic!("the setup did not end");
}

fn fresh_renderer() -> Renderer {
    let mut renderer = open_window().create_renderer(Ok(())).unwrap();
    renderer.take_commands();
    renderer
}

fn uniform(name: &str, location: i32) -> ActiveUniform {
    ActiveUniform { name: name.as_bytes().to_vec(), location }
}

fn program_with(id: u32, active: Vec<ActiveUniform>) -> Program {
    let mut program = Program::new(id).ok().unwrap();
    program.update_uniforms(active);
    program
}

#[test]
fn a_program_of_name_zero_is_not_created() {
    assert!(matches!(Program::new(0), Err(ProgramError::ProgramCreation)));
}

#[test]
fn a_created_program_keeps_its_name_and_has_no_uniform() {
    let program = Program::new(17).ok().unwrap();
    assert_eq!(program.id(), 17);
    assert_eq!(program.location("anything"), None);
}

#[test]
fn a_shader_of_name_zero_is_not_created() {
    assert!(matches!(Shader::new(0), Err(ProgramError::ShaderCreation)));
    assert_eq!(Shader::new(8).ok().unwrap().id(), 8);
}

#[test]
fn releasing_a_shader_deletes_it() {
    let mut renderer = fresh_renderer();
    Shader::new(8).ok().unwrap().release(&mut renderer);
    assert_eq!(renderer.take_commands(), vec![Command::DeleteShader { shader: 8 }]);
}

#[test]
fn applying_a_program_makes_it_current() {
    let mut renderer = fresh_renderer();
    let program = Program::new(17).ok().unwrap();
    program.apply(&mut renderer);
    assert_eq!(renderer.take_commands(), vec![Command::UseProgram { program: 17 }]);
}

#[test]
fn releasing_a_program_deletes_it() {
    let mut renderer = fresh_renderer();
    Program::new(17).ok().unwrap().release(&mut renderer);
    assert_eq!(renderer.take_commands(), vec![Command::DeleteProgram { program: 17 }]);
}

#[test]
fn an_undeclared_uniform_is_not_found_and_nothing_is_issued() {
    let mut renderer = fresh_renderer();
    let program = program_with(3, vec![uniform("scale", 0), uniform("offset", 1)]);
    let found = program.set_uniform(&mut renderer, "undeclared_name", &FloatBits(1.0f32.to_bits()));
    assert!(!found);
    assert_eq!(renderer.pending(), 0);
}

#[test]
fn a_declared_scalar_uniform_is_uploaded_to_its_location() {
    let mut renderer = fresh_renderer();
    let program = program_with(3, vec![uniform("scale", 0), uniform("offset", 4)]);
    let found = program.set_uniform(&mut renderer, "offset", &FloatBits(1.0f32.to_bits()));
    assert!(found);
    assert_eq!(
        renderer.take_commands(),
        vec![Command::ProgramUniform1f { program: 3, location: 4, v0: 0x3F80_0000 }]
    );
}

#[test]
fn a_vector_uniform_is_uploaded_as_one_vector() {
    let mut renderer = fresh_renderer();
    let program = program_with(3, vec![uniform("size", 2)]);
    let value = Vec2Bits([2.0f32.to_bits(), (-1.0f32).to_bits()]);
    assert!(program.set_uniform(&mut renderer, "size", &value));
    assert_eq!(
        renderer.take_commands(),
        vec![Command::ProgramUniform2fv {
            program: 3,
            location: 2,
            count: 1,
            value: vec![0x4000_0000, 0xBF80_0000],
        }]
    );
}

#[test]
fn a_matrix_uniform_is_uploaded_column_after_column_untransposed() {
    let mut renderer = fresh_renderer();
    let program = program_with(3, vec![uniform("transform", 6)]);
    let mut columns = [0u32; 16];
    for (i, cell) in columns.iter_mut().enumerate() {
        *cell = (i as f32).to_bits();
    }
    assert!(program.set_uniform(&mut renderer, "transform", &Mat4Bits(columns)));
    assert_eq!(
        renderer.take_commands(),
        vec![Command::ProgramUniformMatrix4fv {
            program: 3,
            location: 6,
            count: 1,
            transpose: false,
            value: columns.to_vec(),
        }]
    );
}

#[test]
fn a_value_uploads_itself_to_a_given_location() {
    let mut renderer = fresh_renderer();
    let program = Program::new(9).ok().unwrap();
    FloatBits(7).set_uniform(&mut renderer, &program, UniformId(5));
    assert_eq!(
        renderer.take_commands(),
        vec![Command::ProgramUniform1f { program: 9, location: 5, v0: 7 }]
    );
}

#[test]
fn a_uniform_without_location_is_still_found() {
    let mut renderer = fresh_renderer();
    let program = program_with(3, vec![uniform("unused", -1)]);
    assert_eq!(program.location("unused"), Some(UniformId(-1)));
    assert!(program.set_uniform(&mut renderer, "unused", &FloatBits(0)));
    assert_eq!(
        renderer.take_commands(),
        vec![Command::ProgramUniform1f { program: 3, location: -1, v0: 0 }]
    );
}

#[test]
fn updating_replaces_the_cache_and_does_not_merge() {
    let mut program = program_with(3, vec![uniform("old", 1), uniform("kept", 2)]);
    program.update_uniforms(vec![uniform("kept", 5), uniform("new", 6)]);
    assert_eq!(program.location("old"), None);
    assert_eq!(program.location("kept"), Some(UniformId(5)));
    assert_eq!(program.location("new"), Some(UniformId(6)));
    assert_eq!(program.id(), 3);
}

#[test]
fn no_reported_uniform_gives_an_empty_cache() {
    let mut program = program_with(3, vec![uniform("scale", 1)]);
    program.update_uniforms(vec![]);
    assert_eq!(program.location("scale"), None);
    assert_eq!(program.location(""), None);
}

#[test]
fn a_later_report_of_the_same_name_wins() {
    let program = program_with(3, vec![uniform("twice", 1), uniform("other", 2), uniform("twice", 3)]);
    assert_eq!(program.location("twice"), Some(UniformId(3)));
    assert_eq!(program.location("other"), Some(UniformId(2)));
}

#[test]
fn a_name_of_full_capacity_is_kept_whole() {
    let name = "n".repeat(UNIFORM_NAME_CAPACITY);
    let program = program_with(3, vec![uniform(&name, 4)]);
    assert_eq!(program.location(&name), Some(UniformId(4)));
}

#[test]
fn a_longer_name_is_cut_to_capacity() {
    assert_eq!(UNIFORM_NAME_CAPACITY, 128);
    let long = "x".repeat(200);
    let program = program_with(3, vec![uniform(&long, 4)]);
    assert_eq!(program.location(&long), None);
    assert_eq!(program.location(&"x".repeat(129)), None);
    assert_eq!(program.location(&"x".repeat(128)), Some(UniformId(4)));
}

#[test]
fn a_name_that_is_not_utf8_is_read_with_replacement_characters() {
    let broken = ActiveUniform { name: vec![b'a', 0xFF, b'b'], location: 2 };
    let program = program_with(3, vec![broken]);
    assert_eq!(program.location("a\u{FFFD}b"), Some(UniformId(2)));
    assert_eq!(program.location("ab"), None);
}

#[test]
fn a_name_with_wide_characters_is_decoded() {
    let program = program_with(3, vec![uniform("größe", 2)]);
    assert_eq!(program.location("größe"), Some(UniformId(2)));
}

#[test]
fn caching_entries_replaces_the_cache() {
    let mut program = program_with(3, vec![uniform("old", 1)]);
    program.cache_uniforms(vec![
        ("a".to_string(), UniformId(1)),
        ("b".to_string(), UniformId(2)),
        ("a".to_string(), UniformId(3)),
    ]);
    assert_eq!(program.location("old"), None);
    assert_eq!(program.location("a"), Some(UniformId(3)));
    assert_eq!(program.location("b"), Some(UniformId(2)));
}
