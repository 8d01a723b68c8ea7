use render_core::window::SetupStep;
use render_core::window::WindowReply;
use render_core::BufferContents;
use render_core::BufferTarget;
use render_core::BufferUsage;
use render_core::Command;
use render_core::IndexKind;
use render_core::IndexType;
use render_core::Indices;
use render_core::Renderer;
use render_core::Window;

fn open_window() -> Window {
    let replies = vec![
        WindowReply::Nothing,
        WindowReply::Status(0),
        WindowReply::Statuses(0, 0, 0),
        WindowReply::Created(true),
        WindowReply::Created(true),
    ];
    let mut setup = Window::new(640, 480);
    for reply in replies {
        match setup.advance(reply) {
            SetupStep::Ask { setup: next, .. } => setup = next,
            SetupStep::Done { result } => return result.unwrap(),
        }
    }
    panic!("the setup did not end");
}

fn fresh_renderer() -> Renderer {
    let mut renderer = open_window().create_renderer(Ok(())).unwrap();
    renderer.take_commands();
    renderer
}

fn upload(buffer: u32, size: usize, data: BufferContents) -> Vec<Command> {
    vec![
        Command::BindBuffer { target: BufferTarget::ElementArray, buffer },
        Command::BufferData {
            target: BufferTarget::ElementArray,
            size,
            data,
            usage: BufferUsage::StaticDraw,
        },
    ]
}

#[test]
fn byte_indices_report_their_count() {
    let mut renderer = fresh_renderer();
    let indices = renderer.create_indices(7, &[0u8, 1, 2, 2, 3, 0]);
    assert_eq!(indices.len(), 6);
    assert_eq!(
        renderer.take_commands(),
        upload(7, 6, BufferContents::Bytes(vec![0, 1, 2, 2, 3, 0]))
    );
}

#[test]
fn short_indices_report_their_count() {
    let mut renderer = fresh_renderer();
    let indices = renderer.create_indices(3, &[0u16, 1, 400]);
    assert_eq!(indices.len(), 3);
    assert_eq!(
        renderer.take_commands(),
        upload(3, 6, BufferContents::Shorts(vec![0, 1, 400]))
    );
}

#[test]
fn word_indices_report_their_count() {
    let mut renderer = fresh_renderer();
    let indices = renderer.create_indices(9, &[70_000u32, 1, 2, 3]);
    assert_eq!(indices.len(), 4);
    assert_eq!(
        renderer.take_commands(),
        upload(9, 16, BufferContents::Words(vec![70_000, 1, 2, 3]))
    );
}

#[test]
fn empty_indices_upload_nothing_but_still_bind() {
    let mut renderer = fresh_renderer();
    let none: [u16; 0] = [];
    let indices = renderer.create_indices(1, &none);
    assert_eq!(indices.len(), 0);
    assert_eq!(renderer.take_commands(), upload(1, 0, BufferContents::Shorts(vec![])));
}

#[test]
fn index_kinds_have_their_widths() {
    assert_eq!(<u8 as IndexType>::kind(), IndexKind::UnsignedByte);
    assert_eq!(<u16 as IndexType>::kind(), IndexKind::UnsignedShort);
    assert_eq!(<u32 as IndexType>::kind(), IndexKind::UnsignedInt);
    assert_eq!(IndexKind::UnsignedByte.byte_width(), 1);
    assert_eq!(IndexKind::UnsignedShort.byte_width(), 2);
    assert_eq!(IndexKind::UnsignedInt.byte_width(), 4);
}

#[test]
fn packing_copies_the_indices() {
    assert_eq!(<u8 as IndexType>::pack(&[5, 6]), BufferContents::Bytes(vec![5, 6]));
    assert_eq!(<u16 as IndexType>::pack(&[5, 6]), BufferContents::Shorts(vec![5, 6]));
    assert_eq!(<u32 as IndexType>::pack(&[5, 6]), BufferContents::Words(vec![5, 6]));
}

#[test]
fn binding_indices_binds_the_element_buffer() {
    let mut renderer = fresh_renderer();
    let indices = Indices::new(&mut renderer, 12, &[1u32, 2, 3]);
    renderer.take_commands();
    indices.bind(&mut renderer);
    assert_eq!(
        renderer.take_commands(),
        vec![Command::BindBuffer { target: BufferTarget::ElementArray, buffer: 12 }]
    );
}

#[test]
fn releasing_indices_deletes_their_buffer_once() {
    let mut renderer = fresh_renderer();
    let indices = renderer.create_indices(12, &[1u8, 2, 3]);
    renderer.take_commands();
    indices.release(&mut renderer);
    assert_eq!(renderer.take_commands(), vec![Command::DeleteBuffer { buffer: 12 }]);
    assert_eq!(renderer.pending(), 0);
}

#[test]
fn indices_never_bound_are_released_all_the_same() {
    let mut renderer = fresh_renderer();
    let first = renderer.create_indices(1, &[0u8]);
    let second = renderer.create_indices(2, &[0u8]);
    renderer.take_commands();
    second.release(&mut renderer);
    first.release(&mut renderer);
    assert_eq!(
        renderer.take_commands(),
        vec![Command::DeleteBuffer { buffer: 2 }, Command::DeleteBuffer { buffer: 1 }]
    );
}
