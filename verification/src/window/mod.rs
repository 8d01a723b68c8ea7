//! The window: setting it up, its events, and the renderer made from it.
//!
//! The window system is the host's to call. Setting up a window takes turns
//! with it, as building a program does with the driver: each turn the setup
//! is given the outcome of the last request and ends with the next request,
//! with the window, or with the error.

pub mod event;

use crate::commands::Capability;
use crate::commands::Command;
use crate::commands::CommandView;
use crate::commands::DepthFunction;
use crate::renderer::Renderer;
use vstd::prelude::*;

pub use event::Event;
pub use event::Key;
pub use event::RawEvent;

verus! {

/// Major version of the graphics API that a window asks for.
pub const CONTEXT_MAJOR_VERSION: i32 = 4;

/// Minor version of the graphics API that a window asks for.
pub const CONTEXT_MINOR_VERSION: i32 = 6;

/// What can go wrong while a window is set up. Each error carries the
/// window system's own text for it.
#[derive(Clone, Debug, PartialEq, Eq)]
pub enum WindowError {
    /// The window system did not start.
    Initialization(String),
    /// The version or profile of the graphics API was refused.
    OpenGLVersion(String),
    /// No graphics context was made for the window.
    OpenGLContext(String),
    /// No window was made.
    WindowCreation(String),
}

/// The mathematical value of a [`WindowError`].
pub enum WindowErrorView {
    Initialization(Seq<char>),
    OpenGLVersion(Seq<char>),
    OpenGLContext(Seq<char>),
    WindowCreation(Seq<char>),
}

impl View for WindowError {
    type V = WindowErrorView;

    open spec fn view(&self) -> WindowErrorView {
        match self {
            WindowError::Initialization(text) => WindowErrorView::Initialization(text@),
            WindowError::OpenGLVersion(text) => WindowErrorView::OpenGLVersion(text@),
            WindowError::OpenGLContext(text) => WindowErrorView::OpenGLContext(text@),
            WindowError::WindowCreation(text) => WindowErrorView::WindowCreation(text@),
        }
    }
}

/// The step of the setup that a failure belongs to.
#[derive(Clone, Copy, Debug, PartialEq, Eq, Structural)]
pub enum SetupFailure {
    Initialization,
    OpenGLVersion,
    OpenGLContext,
    WindowCreation,
}

impl SetupFailure {
    /// The error of this failure, with the window system's `text` for it.
    pub open spec fn error(self, text: Seq<char>) -> WindowErrorView {
        match self {
            SetupFailure::Initialization => WindowErrorView::Initialization(text),
            SetupFailure::OpenGLVersion => WindowErrorView::OpenGLVersion(text),
            SetupFailure::OpenGLContext => WindowErrorView::OpenGLContext(text),
            SetupFailure::WindowCreation => WindowErrorView::WindowCreation(text),
        }
    }

    /// The error of this failure, with the window system's `text` for it.
    pub fn into_error(self, text: String) -> (error: WindowError)
        ensures
            error@ == self.error(text@),
    {
        match self {
            SetupFailure::Initialization => WindowError::Initialization(text),
            SetupFailure::OpenGLVersion => WindowError::OpenGLVersion(text),
            SetupFailure::OpenGLContext => WindowError::OpenGLContext(text),
            SetupFailure::WindowCreation => WindowError::WindowCreation(text),
        }
    }
}

/// How far a setup has come: which outcome it waits for.
#[derive(Clone, Copy, Debug, PartialEq, Eq, Structural)]
pub enum SetupPhase {
    /// Nothing has been requested yet.
    Idle,
    /// Waiting for the status of starting the window system.
    Initializing,
    /// Waiting for the statuses of asking for version and profile.
    RequestingVersion,
    /// Waiting to hear whether the window was made.
    CreatingWindow,
    /// Waiting to hear whether the graphics context was made.
    CreatingContext,
    /// Waiting for the window system's text for a failure.
    ReadingError { failure: SetupFailure },
}

/// A request that the host makes of the window system.
#[derive(Clone, Copy, Debug, PartialEq, Eq, Structural)]
pub enum WindowRequest {
    /// Start the video part of the window system; the outcome is a status.
    Initialize,
    /// Ask for a core-profile context of the version `major`.`minor`, as
    /// three settings: major, minor, profile. The outcome is their statuses.
    RequestVersion { major: i32, minor: i32 },
    /// Make a window of `width` by `height`, centred on the screen, shown,
    /// resizable and fit for a graphics context. The outcome tells whether
    /// it was made.
    CreateWindow { width: i32, height: i32 },
    /// Make a graphics context for the window. The outcome tells whether it
    /// was made.
    CreateContext,
    /// The window system's text for its last error; the outcome is that
    /// text.
    ErrorMessage,
    /// Delete the graphics context.
    DeleteContext,
    /// Destroy the window.
    DestroyWindow,
    /// Shut the window system down.
    Quit,
}

/// The outcome of a request.
///
/// An outcome of another kind than the request called for reads as a
/// failure: a status that is not zero, nothing made, an empty text.
#[derive(Clone, Debug, PartialEq, Eq)]
pub enum WindowReply {
    /// No outcome, for the first turn, when nothing has been requested.
    Nothing,
    /// A status; zero means success.
    Status(i32),
    /// The statuses of the three settings of a version request. They
    /// report success where they add up to zero.
    Statuses(i32, i32, i32),
    /// Whether the object asked for was made.
    Created(bool),
    /// A text of the window system.
    Message(String),
}

impl WindowReply {
    /// Whether the outcome reports success.
    pub open spec fn succeeded(&self) -> bool {
        match self {
            WindowReply::Status(status) => *status == 0,
            WindowReply::Statuses(major, minor, profile) => *major + *minor + *profile == 0,
            WindowReply::Created(created) => *created,
            _ => false,
        }
    }

    /// The text that the outcome gives.
    pub open spec fn message(&self) -> Seq<char> {
        match self {
            WindowReply::Message(text) => text@,
            _ => Seq::empty(),
        }
    }

    fn has_succeeded(&self) -> (succeeded: bool)
        ensures
            succeeded == self.succeeded(),
    {
        match self {
            WindowReply::Status(status) => *status == 0,
            WindowReply::Statuses(major, minor, profile) => {
                *major as i64 + *minor as i64 + *profile as i64 == 0
            },
            WindowReply::Created(created) => *created,
            _ => false,
        }
    }

    fn into_message(self) -> (text: String)
        ensures
            text@ == self.message(),
    {
        match self {
            WindowReply::Message(text) => text,
            _ => String::new(),
        }
    }
}

/// The mathematical value of a [`WindowSetup`].
pub struct SetupView {
    /// Width asked for, in pixels.
    pub width: i32,
    /// Height asked for, in pixels.
    pub height: i32,
    /// Which outcome the setup waits for.
    pub phase: SetupPhase,
}

/// What a turn of a setup ends with, as a mathematical value.
pub enum SetupStepView {
    /// The setup goes on: `request` is to be made, and its outcome handed to
    /// `setup`.
    Ask { setup: SetupView, request: WindowRequest },
    /// The setup is over.
    Done { result: Result<(), WindowErrorView> },
}

impl SetupView {
    /// This setup, waiting in `phase`.
    pub open spec fn at(self, phase: SetupPhase) -> SetupView {
        SetupView { phase, ..self }
    }

    /// Where the setup goes when the request it waits for has failed: it
    /// asks for the text of the error of `failure`.
    pub open spec fn fail(self, failure: SetupFailure) -> SetupStepView {
        SetupStepView::Ask {
            setup: self.at(SetupPhase::ReadingError { failure }),
            request: WindowRequest::ErrorMessage,
        }
    }

    /// What a turn ends with when it is given `reply`.
    pub open spec fn step(self, reply: WindowReply) -> SetupStepView {
        match self.phase {
            SetupPhase::Idle => SetupStepView::Ask {
                setup: self.at(SetupPhase::Initializing),
                request: WindowRequest::Initialize,
            },
            SetupPhase::Initializing => if reply.succeeded() {
                SetupStepView::Ask {
                    setup: self.at(SetupPhase::RequestingVersion),
                    request: WindowRequest::RequestVersion {
                        major: CONTEXT_MAJOR_VERSION,
                        minor: CONTEXT_MINOR_VERSION,
                    },
                }
            } else {
                self.fail(SetupFailure::Initialization)
            },
            SetupPhase::RequestingVersion => if reply.succeeded() {
                SetupStepView::Ask {
                    setup: self.at(SetupPhase::CreatingWindow),
                    request: WindowRequest::CreateWindow { width: self.width, height: self.height },
                }
            } else {
                self.fail(SetupFailure::OpenGLVersion)
            },
            SetupPhase::CreatingWindow => if reply.succeeded() {
                SetupStepView::Ask {
                    setup: self.at(SetupPhase::CreatingContext),
                    request: WindowRequest::CreateContext,
                }
            } else {
                self.fail(SetupFailure::WindowCreation)
            },
            SetupPhase::CreatingContext => if reply.succeeded() {
                SetupStepView::Done { result: Ok(()) }
            } else {
                self.fail(SetupFailure::OpenGLContext)
            },
            SetupPhase::ReadingError { failure } => SetupStepView::Done {
                result: Err(failure.error(reply.message())),
            },
        }
    }
}

/// A setup under way.
pub struct WindowSetup {
    width: i32,
    height: i32,
    phase: SetupPhase,
}

impl View for WindowSetup {
    type V = SetupView;

    closed spec fn view(&self) -> SetupView {
        SetupView { width: self.width, height: self.height, phase: self.phase }
    }
}

/// What a turn of a setup ends with.
pub enum SetupStep {
    /// The setup goes on: `request` is to be made, and its outcome handed to
    /// `setup`.
    Ask { setup: WindowSetup, request: WindowRequest },
    /// The setup is over.
    Done { result: Result<Window, WindowError> },
}

impl View for SetupStep {
    type V = SetupStepView;

    open spec fn view(&self) -> SetupStepView {
        match self {
            SetupStep::Ask { setup, request } => SetupStepView::Ask {
                setup: setup@,
                request: *request,
            },
            SetupStep::Done { result } => SetupStepView::Done {
                result: match result {
                    Ok(_) => Ok(()),
                    Err(error) => Err(error@),
                },
            },
        }
    }
}

impl WindowSetup {
    /// Which outcome the setup waits for.
    pub fn phase(&self) -> (phase: SetupPhase)
        ensures
            phase == self@.phase,
    {
        self.phase
    }

    fn fail(self, failure: SetupFailure) -> (step: SetupStep)
        ensures
            step@ == self@.fail(failure),
    {
        let mut setup = self;
        setup.phase = SetupPhase::ReadingError { failure };
        SetupStep::Ask { setup, request: WindowRequest::ErrorMessage }
    }

    fn go_on(self, phase: SetupPhase, request: WindowRequest) -> (step: SetupStep)
        ensures
            step@ == (SetupStepView::Ask { setup: self@.at(phase), request }),
    {
        let mut setup = self;
        setup.phase = phase;
        SetupStep::Ask { setup, request }
    }

    /// Takes one turn of the setup: reads `reply`, the outcome of the request
    /// of the turn before, and ends with the next request or with the
    /// outcome of the setup. A failed request ends the setup with the error
    /// of its step; nothing is tried again.
    pub fn advance(self, reply: WindowReply) -> (step: SetupStep)
        ensures
            step@ == self@.step(reply),
    {
        match self.phase {
            SetupPhase::Idle => self.go_on(SetupPhase::Initializing, WindowRequest::Initialize),
            SetupPhase::Initializing => {
                if reply.has_succeeded() {
                    self.go_on(
                        SetupPhase::RequestingVersion,
                        WindowRequest::RequestVersion {
                            major: CONTEXT_MAJOR_VERSION,
                            minor: CONTEXT_MINOR_VERSION,
                        },
                    )
                } else {
                    self.fail(SetupFailure::Initialization)
                }
            },
            SetupPhase::RequestingVersion => {
                if reply.has_succeeded() {
                    let request = WindowRequest::CreateWindow {
                        width: self.width,
                        height: self.height,
                    };
                    self.go_on(SetupPhase::CreatingWindow, request)
                } else {
                    self.fail(SetupFailure::OpenGLVersion)
                }
            },
            SetupPhase::CreatingWindow => {
                if reply.has_succeeded() {
                    self.go_on(SetupPhase::CreatingContext, WindowRequest::CreateContext)
                } else {
                    self.fail(SetupFailure::WindowCreation)
                }
            },
            SetupPhase::CreatingContext => {
                if reply.has_succeeded() {
                    SetupStep::Done { result: Ok(Window { _sealed: () }) }
                } else {
                    self.fail(SetupFailure::OpenGLContext)
                }
            },
            SetupPhase::ReadingError { failure } => SetupStep::Done {
                result: Err(failure.into_error(reply.into_message())),
            },
        }
    }
}

/// The calls that prepare a fresh context for drawing: cull back faces, test
/// depth, and let the nearer fragment win.
pub open spec fn prepare_context() -> Seq<CommandView> {
    seq![
        CommandView::Enable { capability: Capability::CullFace },
        CommandView::Enable { capability: Capability::DepthTest },
        CommandView::DepthFunc { function: DepthFunction::Less },
    ]
}

/// The requests that take a window down: its context first, then the window,
/// then the window system.
pub open spec fn teardown() -> Seq<WindowRequest> {
    seq![WindowRequest::DeleteContext, WindowRequest::DestroyWindow, WindowRequest::Quit]
}

/// A window with its graphics context, set up and open.
///
/// There is no way to make one but to carry a setup through, so whoever holds
/// a window knows that each of its steps succeeded.
pub struct Window {
    _sealed: (),
}

impl Window {
    /// Starts the setup of a window of `width` by `height` pixels. The
    /// title of the window is the host's to give when it makes the window.
    pub fn new(width: i32, height: i32) -> (setup: WindowSetup)
        ensures
            setup@ == (SetupView { width, height, phase: SetupPhase::Idle }),
    {
        WindowSetup { width, height, phase: SetupPhase::Idle }
    }

    /// Makes the renderer of the window's context, once the host has loaded
    /// the entry points of the graphics API: `loaded` is the outcome of that,
    /// and an error in it, the name of what did not load, is handed on. The
    /// renderer starts with the calls that prepare the context.
    pub fn create_renderer(&self, loaded: Result<(), &'static str>) -> (created: Result<
        Renderer,
        &'static str,
    >)
        ensures
            match created {
                Ok(renderer) => loaded is Ok && renderer@ == prepare_context(),
                Err(missing) => loaded == Err::<(), &'static str>(missing),
            },
    {
        match loaded {
            Ok(_) => {
                let mut renderer = Renderer::new();
                renderer.issue(Command::Enable { capability: Capability::CullFace });
                renderer.issue(Command::Enable { capability: Capability::DepthTest });
                renderer.issue(Command::DepthFunc { function: DepthFunction::Less });
                assert(renderer@ =~= prepare_context());
                Ok(renderer)
            },
            Err(missing) => Err(missing),
        }
    }

    /// The next event, from what one poll of the window system's queue
    /// gave: `polled` is what the poll returned, 1 where it took an event out,
    /// and `event` is that event. `None` where the queue was empty.
    pub fn next_event(&self, polled: i32, event: RawEvent) -> (next: Option<Event>)
        ensures
            next == if polled == 1 {
                Some(Event::of_raw(event))
            } else {
                None
            },
    {
        if polled == 1 {
            Some(Event::from_sdl_event(event))
        } else {
            None
        }
    }

    /// Closes the window and returns the requests that take it down, in the
    /// order in which they are to be made. The window is consumed, so it is
    /// taken down once.
    pub fn close(self) -> (requests: Vec<WindowRequest>)
        ensures
            requests@ == teardown(),
    {
        let mut requests: Vec<WindowRequest> = Vec::new();
        requests.push(WindowRequest::DeleteContext);
        requests.push(WindowRequest::DestroyWindow);
        requests.push(WindowRequest::Quit);
        assert(requests@ =~= teardown());
        requests
    }
}

} // verus!
