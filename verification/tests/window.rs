use render_core::window::SetupPhase;
use render_core::window::SetupFailure;
use render_core::window::SetupStep;
use render_core::window::WindowReply;
use render_core::window::WindowRequest;
use render_core::window::CONTEXT_MAJOR_VERSION;
use render_core::window::CONTEXT_MINOR_VERSION;
use render_core::Capability;
use render_core::Command;
use render_core::DepthFunction;
use render_core::Event;
use render_core::Key;
use render_core::RawEvent;
use render_core::Window;
use render_core::WindowError;

/// Runs a setup against a window system that answers with `replies` in turn,
/// and returns the requests made and the outcome.
fn run(replies: Vec<WindowReply>) -> (Vec<WindowRequest>, Option<Result<Window, WindowError>>) {
    let mut setup = Window::new(800, 600);
    let mut requests = Vec::new();
    let mut replies = replies.into_iter();
    let mut reply = WindowReply::Nothing;
    loop {
        match setup.advance(reply) {
            SetupStep::Ask { setup: next, request } => {
                requests.push(request);
                setup = next;
                match replies.next() {
                    Some(answer) => reply = answer,
                    None => return (requests, None),
                }
            }
            SetupStep::Done { result } => {
                assert!(replies.next().is_none());
                return (requests, Some(result));
            }
        }
    }
}

fn open_window() -> Window {
    let (_, outcome) = run(vec![
        WindowReply::Status(0),
        WindowReply::Statuses(0, 0, 0),
        WindowReply::Created(true),
        WindowReply::Created(true),
    ]);
    outcome.unwrap().ok().unwrap()
}

fn error_of(outcome: Option<Result<Window, WindowError>>) -> WindowError {
    match outcome {
        Some(Err(error)) => error,
        _ => panic!("the setup did not fail"),
    }
}

#[test]
fn a_new_setup_has_requested_nothing() {
    assert_eq!(Window::new(800, 600).phase(), SetupPhase::Idle);
}

#[test]
fn the_window_asks_for_version_four_six() {
    assert_eq!(CONTEXT_MAJOR_VERSION, 4);
    assert_eq!(CONTEXT_MINOR_VERSION, 6);
}

#[test]
fn a_setup_that_meets_no_failure_makes_its_four_requests_in_order() {
    let (requests, outcome) = run(vec![
        WindowReply::Status(0),
        WindowReply::Statuses(0, 0, 0),
        WindowReply::Created(true),
        WindowReply::Created(true),
    ]);
    assert_eq!(
        requests,
        vec![
            WindowRequest::Initialize,
            WindowRequest::RequestVersion { major: 4, minor: 6 },
            WindowRequest::CreateWindow { width: 800, height: 600 },
            WindowRequest::CreateContext,
        ]
    );
    assert!(matches!(outcome, Some(Ok(_))));
}

#[test]
fn a_failed_start_is_an_initialization_error_with_the_systems_text() {
    let (requests, outcome) = run(vec![
        WindowReply::Status(-1),
        WindowReply::Message("No available video device".to_string()),
    ]);
    assert_eq!(requests, vec![WindowRequest::Initialize, WindowRequest::ErrorMessage]);
    assert_eq!(
        error_of(outcome),
        WindowError::Initialization("No available video device".to_string())
    );
}

#[test]
fn a_refused_version_is_a_version_error() {
    for statuses in [(-1, 0, 0), (0, -1, 0), (0, 0, -1), (-1, -1, -1), (0, 0, 7)] {
        let (requests, outcome) = run(vec![
            WindowReply::Status(0),
            WindowReply::Statuses(statuses.0, statuses.1, statuses.2),
            WindowReply::Message("bad attribute".to_string()),
        ]);
        assert_eq!(
            requests,
            vec![
                WindowRequest::Initialize,
                WindowRequest::RequestVersion { major: 4, minor: 6 },
                WindowRequest::ErrorMessage,
            ]
        );
        assert_eq!(error_of(outcome), WindowError::OpenGLVersion("bad attribute".to_string()));
    }
}

#[test]
fn version_statuses_count_by_their_sum() {
    let (requests, _) = run(vec![WindowReply::Status(0), WindowReply::Statuses(-1, 1, 0)]);
    assert_eq!(requests.last(), Some(&WindowRequest::CreateWindow { width: 800, height: 600 }));
    let (requests, _) = run(vec![
        WindowReply::Status(0),
        WindowReply::Statuses(i32::MAX, i32::MAX, i32::MAX),
    ]);
    assert_eq!(requests.last(), Some(&WindowRequest::ErrorMessage));
    let (requests, _) = run(vec![
        WindowReply::Status(0),
        WindowReply::Statuses(i32::MIN, i32::MAX, 1),
    ]);
    assert_eq!(requests.last(), Some(&WindowRequest::CreateWindow { width: 800, height: 600 }));
}

#[test]
fn no_window_is_a_window_creation_error() {
    let (requests, outcome) = run(vec![
        WindowReply::Status(0),
        WindowReply::Statuses(0, 0, 0),
        WindowReply::Created(false),
        WindowReply::Message("Could not create window".to_string()),
    ]);
    assert_eq!(requests.len(), 4);
    assert_eq!(requests[3], WindowRequest::ErrorMessage);
    assert_eq!(
        error_of(outcome),
        WindowError::WindowCreation("Could not create window".to_string())
    );
}

#[test]
fn no_context_is_a_context_error() {
    let (requests, outcome) = run(vec![
        WindowReply::Status(0),
        WindowReply::Statuses(0, 0, 0),
        WindowReply::Created(true),
        WindowReply::Created(false),
        WindowReply::Message("Could not create GL context".to_string()),
    ]);
    assert_eq!(requests.len(), 5);
    assert_eq!(requests[4], WindowRequest::ErrorMessage);
    assert_eq!(
        error_of(outcome),
        WindowError::OpenGLContext("Could not create GL context".to_string())
    );
}

#[test]
fn an_outcome_of_another_kind_reads_as_a_failure() {
    let (requests, outcome) =
        run(vec![WindowReply::Created(false), WindowReply::Status(0)]);
    assert_eq!(requests, vec![WindowRequest::Initialize, WindowRequest::ErrorMessage]);
    assert_eq!(error_of(outcome), WindowError::Initialization(String::new()));
    let (requests, _) = run(vec![WindowReply::Nothing]);
    assert_eq!(requests.last(), Some(&WindowRequest::ErrorMessage));
    let (requests, _) = run(vec![WindowReply::Status(0), WindowReply::Message(String::new())]);
    assert_eq!(requests.last(), Some(&WindowRequest::ErrorMessage));
}

#[test]
fn a_failure_waits_for_the_text_of_its_own_step() {
    let step = Window::new(1, 1).advance(WindowReply::Nothing);
    let setup = match step {
        SetupStep::Ask { setup, .. } => setup,
        SetupStep::Done { .. } => panic!("the setup ended too early"),
    };
    assert_eq!(setup.phase(), SetupPhase::Initializing);
    match setup.advance(WindowReply::Status(3)) {
        SetupStep::Ask { setup, request } => {
            assert_eq!(request, WindowRequest::ErrorMessage);
            assert_eq!(
                setup.phase(),
                SetupPhase::ReadingError { failure: SetupFailure::Initialization }
            );
        }
        SetupStep::Done { .. } => panic!("the setup ended too early"),
    }
}

#[test]
fn failures_name_their_errors() {
    let text = || "why".to_string();
    assert_eq!(SetupFailure::Initialization.into_error(text()), WindowError::Initialization(text()));
    assert_eq!(SetupFailure::OpenGLVersion.into_error(text()), WindowError::OpenGLVersion(text()));
    assert_eq!(SetupFailure::OpenGLContext.into_error(text()), WindowError::OpenGLContext(text()));
    assert_eq!(SetupFailure::WindowCreation.into_error(text()), WindowError::WindowCreation(text()));
}

#[test]
fn a_renderer_starts_with_the_calls_that_prepare_the_context() {
    let window = open_window();
    let mut renderer = window.create_renderer(Ok(())).unwrap();
    assert_eq!(
        renderer.take_commands(),
        vec![
            Command::Enable { capability: Capability::CullFace },
            Command::Enable { capability: Capability::DepthTest },
            Command::DepthFunc { function: DepthFunction::Less },
        ]
    );
}

#[test]
fn entry_points_that_did_not_load_make_no_renderer() {
    let window = open_window();
    match window.create_renderer(Err("glDrawElements")) {
        Err(missing) => assert_eq!(missing, "glDrawElements"),
        Ok(_) => panic!("a renderer was made without its entry points"),
    }
}

#[test]
fn a_poll_that_took_an_event_gives_it() {
    let window = open_window();
    let raw = RawEvent { kind: 0x300, scancode: 4, repeat: 0, window_event: 0, data1: 0, data2: 0 };
    assert_eq!(
        window.next_event(1, raw),
        Some(Event::KeyPressed { scancode: Key::A, repeat: false })
    );
    let quit = RawEvent { kind: 0x100, ..raw };
    assert_eq!(window.next_event(1, quit), Some(Event::Quit));
}

#[test]
fn a_poll_of_an_empty_queue_gives_nothing() {
    let window = open_window();
    let raw = RawEvent { kind: 0x300, scancode: 4, repeat: 0, window_event: 0, data1: 0, data2: 0 };
    assert_eq!(window.next_event(0, raw), None);
    assert_eq!(window.next_event(-1, raw), None);
    assert_eq!(window.next_event(2, raw), None);
}

#[test]
fn closing_takes_down_context_window_and_system_in_that_order() {
    assert_eq!(
        open_window().close(),
        vec![WindowRequest::DeleteContext, WindowRequest::DestroyWindow, WindowRequest::Quit]
    );
}
