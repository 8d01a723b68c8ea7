//! Building a program: compile two shaders, link them, read the uniforms.
//!
//! The build talks to the driver in turns. Each turn the builder is given the
//! driver's answer to the last question, issues the calls that follow from
//! it, and either asks the next question or ends with the program or with the
//! error. The host makes the calls and asks the questions.

use crate::commands::Command;
use crate::commands::CommandView;
use crate::commands::ShaderKind;
use crate::program::decode_strict;
use crate::program::locations;
use crate::program::named;
use crate::program::report_views;
use crate::program::ActiveUniform;
use crate::program::ErrorView;
use crate::program::Program;
use crate::program::ProgramError;
use crate::program::ProgramView;
use crate::program::Shader;
use crate::renderer::Renderer;
use vstd::prelude::*;
use vstd::utf8::decode_utf8;
use vstd::utf8::valid_utf8;

verus! {

/// How far a build has come: which answer of the driver it waits for.
#[derive(Clone, Copy, Debug, PartialEq, Eq, Structural)]
pub enum BuildPhase {
    /// Nothing has been asked yet.
    Unlinked,
    /// Waiting for the name of the new program object.
    CreatingProgram,
    /// Waiting for the name of the new shader object of `kind`.
    CreatingShader { kind: ShaderKind },
    /// Waiting for the compile status of the shader of `kind`.
    Compiling { kind: ShaderKind },
    /// Waiting for the info log of the shader of `kind`, which did not
    /// compile.
    ReadingShaderLog { kind: ShaderKind },
    /// Waiting for the link status of the program.
    Linking,
    /// Waiting for the info log of the program, which did not link.
    ReadingProgramLog,
    /// Waiting for the active uniforms of the linked program.
    Harvesting,
}

/// A question that the host puts to the driver, once it has performed the
/// calls issued so far.
#[derive(Clone, Copy, Debug, PartialEq, Eq, Structural)]
pub enum DriverQuery {
    /// Create a program object; the answer is its name.
    CreateProgram,
    /// Create a shader object of `kind`; the answer is its name.
    CreateShader { kind: ShaderKind },
    /// Has `shader` compiled? The answer is a status.
    CompileStatus { shader: u32 },
    /// The info log of `shader`; the answer is its bytes.
    ShaderInfoLog { shader: u32 },
    /// Has `program` linked? The answer is a status.
    LinkStatus { program: u32 },
    /// The info log of `program`; the answer is its bytes.
    ProgramInfoLog { program: u32 },
    /// The active uniforms of `program`, each with its name and location.
    ActiveUniforms { program: u32 },
}

/// An answer of the driver.
///
/// An answer of another kind than the question called for reads as the
/// driver's way of giving nothing: the name zero, a failed status, an empty
/// log, no uniforms.
#[derive(Clone, Debug, PartialEq, Eq)]
pub enum DriverReply {
    /// No answer, for the first turn, when nothing has been asked.
    Nothing,
    /// The name of a created object; zero where the driver created none.
    Name(u32),
    /// Whether a compile or a link succeeded.
    Status(bool),
    /// The bytes of an info log, as the driver wrote them.
    InfoLog(Vec<u8>),
    /// The active uniforms of a program.
    Uniforms(Vec<ActiveUniform>),
}

impl DriverReply {
    /// The name that the answer gives.
    pub open spec fn name(&self) -> u32 {
        match self {
            DriverReply::Name(name) => *name,
            _ => 0,
        }
    }

    /// Whether the answer reports success.
    pub open spec fn passed(&self) -> bool {
        match self {
            DriverReply::Status(passed) => *passed,
            _ => false,
        }
    }

    /// The bytes of the info log that the answer gives.
    pub open spec fn log(&self) -> Seq<u8> {
        match self {
            DriverReply::InfoLog(log) => log@,
            _ => Seq::empty(),
        }
    }

    /// The uniforms that the answer lists.
    pub open spec fn uniforms(&self) -> Seq<(Seq<u8>, i32)> {
        match self {
            DriverReply::Uniforms(active) => report_views(active@),
            _ => Seq::empty(),
        }
    }

    fn into_name(self) -> (name: u32)
        ensures
            name == self.name(),
    {
        match self {
            DriverReply::Name(name) => name,
            _ => 0,
        }
    }

    fn into_passed(self) -> (passed: bool)
        ensures
            passed == self.passed(),
    {
        match self {
            DriverReply::Status(passed) => passed,
            _ => false,
        }
    }

    fn into_log(self) -> (log: Vec<u8>)
        ensures
            log@ == self.log(),
    {
        match self {
            DriverReply::InfoLog(log) => log,
            _ => Vec::new(),
        }
    }

    fn into_uniforms(self) -> (active: Vec<ActiveUniform>)
        ensures
            report_views(active@) == self.uniforms(),
    {
        match self {
            DriverReply::Uniforms(active) => active,
            _ => {
                let active: Vec<ActiveUniform> = Vec::new();
                assert(report_views(active@) =~= Seq::empty());
                active
            },
        }
    }
}

/// The error that a shader which did not compile ends the build with:
/// `ShaderCompilation` of its info log read as UTF-8, and
/// `ErrorMsgConversion` where the log is not UTF-8.
pub open spec fn compilation_error(log: Seq<u8>) -> ErrorView {
    if valid_utf8(log) {
        ErrorView::ShaderCompilation(decode_utf8(log))
    } else {
        ErrorView::ErrorMsgConversion
    }
}

/// The error that a program which did not link ends the build with:
/// `ProgramLinking` of its info log read as UTF-8, and `ErrorMsgConversion`
/// where the log is not UTF-8.
pub open spec fn linking_error(log: Seq<u8>) -> ErrorView {
    if valid_utf8(log) {
        ErrorView::ProgramLinking(decode_utf8(log))
    } else {
        ErrorView::ErrorMsgConversion
    }
}

/// The call that deletes the shader `shader`; none where it is zero, the
/// name of no shader.
pub open spec fn delete_shader(shader: u32) -> Seq<CommandView> {
    if shader != 0 {
        seq![CommandView::DeleteShader { shader }]
    } else {
        Seq::empty()
    }
}

/// The call that deletes the program `program`; none where it is zero, the
/// name of no program.
pub open spec fn delete_program(program: u32) -> Seq<CommandView> {
    if program != 0 {
        seq![CommandView::DeleteProgram { program }]
    } else {
        Seq::empty()
    }
}

/// The mathematical value of a [`ProgramBuilder`].
pub struct BuilderView {
    /// Source text of the vertex shader.
    pub vertex_src: Seq<char>,
    /// Source text of the fragment shader.
    pub fragment_src: Seq<char>,
    /// Which answer the build waits for.
    pub phase: BuildPhase,
    /// Name of the program object; zero while there is none.
    pub program: u32,
    /// Name of the vertex shader object; zero while there is none.
    pub vertex: u32,
    /// Name of the fragment shader object; zero while there is none.
    pub fragment: u32,
}

/// What a turn of the build ends with.
pub enum StepView {
    /// The build goes on: `query` is to be put to the driver, and the answer
    /// handed to `builder`.
    Ask { builder: BuilderView, query: DriverQuery },
    /// The build is over.
    Done { result: Result<ProgramView, ErrorView> },
}

impl BuilderView {
    /// Source text of the shader of `kind`.
    pub open spec fn source(self, kind: ShaderKind) -> Seq<char> {
        match kind {
            ShaderKind::Vertex => self.vertex_src,
            ShaderKind::Fragment => self.fragment_src,
        }
    }

    /// Name of the shader object of `kind`.
    pub open spec fn shader(self, kind: ShaderKind) -> u32 {
        match kind {
            ShaderKind::Vertex => self.vertex,
            ShaderKind::Fragment => self.fragment,
        }
    }

    /// This build, waiting in `phase`.
    pub open spec fn at(self, phase: BuildPhase) -> BuilderView {
        BuilderView { phase, ..self }
    }

    /// This build, with `shader` as the shader object of `kind`.
    pub open spec fn with_shader(self, kind: ShaderKind, shader: u32) -> BuilderView {
        match kind {
            ShaderKind::Vertex => BuilderView { vertex: shader, ..self },
            ShaderKind::Fragment => BuilderView { fragment: shader, ..self },
        }
    }

    /// Whether the objects of the build are those that its phase has made:
    /// the program from the turn that was given its name, each shader
    /// likewise, and none before. Every build that began with
    /// `ProgramBuilder::new` is in order.
    pub open spec fn in_order(self) -> bool {
        match self.phase {
            BuildPhase::Unlinked | BuildPhase::CreatingProgram => {
                self.program == 0 && self.vertex == 0 && self.fragment == 0
            },
            BuildPhase::CreatingShader { kind: ShaderKind::Vertex } => {
                self.program != 0 && self.vertex == 0 && self.fragment == 0
            },
            BuildPhase::Compiling { kind: ShaderKind::Vertex }
            | BuildPhase::ReadingShaderLog { kind: ShaderKind::Vertex }
            | BuildPhase::CreatingShader { kind: ShaderKind::Fragment } => {
                self.program != 0 && self.vertex != 0 && self.fragment == 0
            },
            BuildPhase::Compiling { kind: ShaderKind::Fragment }
            | BuildPhase::ReadingShaderLog { kind: ShaderKind::Fragment }
            | BuildPhase::Linking
            | BuildPhase::ReadingProgramLog
            | BuildPhase::Harvesting => {
                self.program != 0 && self.vertex != 0 && self.fragment != 0
            },
        }
    }

    /// The calls that delete the shader objects made so far, the newer one
    /// first.
    pub open spec fn release_shaders(self) -> Seq<CommandView> {
        delete_shader(self.fragment) + delete_shader(self.vertex)
    }

    /// The calls that delete every object made so far: the shaders, then the
    /// program.
    pub open spec fn abandon(self) -> Seq<CommandView> {
        self.release_shaders() + delete_program(self.program)
    }

    /// The calls that a turn issues when it is given `reply`.
    pub open spec fn commands(self, reply: DriverReply) -> Seq<CommandView> {
        match self.phase {
            BuildPhase::Unlinked => Seq::empty(),
            BuildPhase::CreatingProgram => Seq::empty(),
            BuildPhase::CreatingShader { kind } => if reply.name() == 0 {
                self.abandon()
            } else {
                seq![
                    CommandView::ShaderSource { shader: reply.name(), source: self.source(kind) },
                    CommandView::CompileShader { shader: reply.name() },
                ]
            },
            BuildPhase::Compiling { kind } => if reply.passed() && kind == ShaderKind::Fragment {
                seq![
                    CommandView::AttachShader { program: self.program, shader: self.vertex },
                    CommandView::AttachShader { program: self.program, shader: self.fragment },
                    CommandView::LinkProgram { program: self.program },
                ]
            } else {
                Seq::empty()
            },
            BuildPhase::ReadingShaderLog { kind } => self.abandon(),
            BuildPhase::Linking => seq![
                CommandView::DetachShader { program: self.program, shader: self.vertex },
                CommandView::DetachShader { program: self.program, shader: self.fragment },
            ],
            BuildPhase::ReadingProgramLog => self.abandon(),
            BuildPhase::Harvesting => self.release_shaders(),
        }
    }

    /// What a turn ends with when it is given `reply`.
    pub open spec fn step(self, reply: DriverReply) -> StepView {
        match self.phase {
            BuildPhase::Unlinked => StepView::Ask {
                builder: self.at(BuildPhase::CreatingProgram),
                query: DriverQuery::CreateProgram,
            },
            BuildPhase::CreatingProgram => if reply.name() == 0 {
                StepView::Done { result: Err(ErrorView::ProgramCreation) }
            } else {
                StepView::Ask {
                    builder: (BuilderView { program: reply.name(), ..self }).at(
                        BuildPhase::CreatingShader { kind: ShaderKind::Vertex },
                    ),
                    query: DriverQuery::CreateShader { kind: ShaderKind::Vertex },
                }
            },
            BuildPhase::CreatingShader { kind } => if reply.name() == 0 {
                StepView::Done { result: Err(ErrorView::ShaderCreation) }
            } else {
                StepView::Ask {
                    builder: self.with_shader(kind, reply.name()).at(BuildPhase::Compiling { kind }),
                    query: DriverQuery::CompileStatus { shader: reply.name() },
                }
            },
            BuildPhase::Compiling { kind } => if !reply.passed() {
                StepView::Ask {
                    builder: self.at(BuildPhase::ReadingShaderLog { kind }),
                    query: DriverQuery::ShaderInfoLog { shader: self.shader(kind) },
                }
            } else if kind == ShaderKind::Vertex {
                StepView::Ask {
                    builder: self.at(BuildPhase::CreatingShader { kind: ShaderKind::Fragment }),
                    query: DriverQuery::CreateShader { kind: ShaderKind::Fragment },
                }
            } else {
                StepView::Ask {
                    builder: self.at(BuildPhase::Linking),
                    query: DriverQuery::LinkStatus { program: self.program },
                }
            },
            BuildPhase::ReadingShaderLog { kind } => StepView::Done {
                result: Err(compilation_error(reply.log())),
            },
            BuildPhase::Linking => if reply.passed() {
                StepView::Ask {
                    builder: self.at(BuildPhase::Harvesting),
                    query: DriverQuery::ActiveUniforms { program: self.program },
                }
            } else {
                StepView::Ask {
                    builder: self.at(BuildPhase::ReadingProgramLog),
                    query: DriverQuery::ProgramInfoLog { program: self.program },
                }
            },
            BuildPhase::ReadingProgramLog => StepView::Done {
                result: Err(linking_error(reply.log())),
            },
            BuildPhase::Harvesting => if self.program == 0 {
                StepView::Done { result: Err(ErrorView::ProgramCreation) }
            } else {
                StepView::Done {
                    result: Ok(
                        ProgramView {
                            id: self.program,
                            uniforms: locations(named(reply.uniforms())),
                        },
                    ),
                }
            },
        }
    }
}

/// A build under way: the two sources, and the objects made so far.
pub struct ProgramBuilder<'a> {
    fragment_src: &'a str,
    vertex_src: &'a str,
    phase: BuildPhase,
    program: u32,
    vertex: u32,
    fragment: u32,
}

impl<'a> View for ProgramBuilder<'a> {
    type V = BuilderView;

    closed spec fn view(&self) -> BuilderView {
        BuilderView {
            vertex_src: self.vertex_src@,
            fragment_src: self.fragment_src@,
            phase: self.phase,
            program: self.program,
            vertex: self.vertex,
            fragment: self.fragment,
        }
    }
}

/// What a turn of a build ends with.
pub enum BuildStep<'a> {
    /// The build goes on: `query` is to be put to the driver, and the answer
    /// handed to `builder`.
    Ask { builder: ProgramBuilder<'a>, query: DriverQuery },
    /// The build is over.
    Done { result: Result<Program, ProgramError> },
}

impl<'a> View for BuildStep<'a> {
    type V = StepView;

    open spec fn view(&self) -> StepView {
        match self {
            BuildStep::Ask { builder, query } => StepView::Ask { builder: builder@, query: *query },
            BuildStep::Done { result } => StepView::Done {
                result: match result {
                    Ok(program) => Ok(program@),
                    Err(error) => Err(error@),
                },
            },
        }
    }
}

impl<'a> ProgramBuilder<'a> {
    /// A build of the program of `vertex_src` and `fragment_src`, with
    /// nothing asked and nothing made yet.
    pub fn new(vertex_src: &'a str, fragment_src: &'a str) -> (builder: Self)
        ensures
            builder@ == (BuilderView {
                vertex_src: vertex_src@,
                fragment_src: fragment_src@,
                phase: BuildPhase::Unlinked,
                program: 0,
                vertex: 0,
                fragment: 0,
            }),
            builder@.in_order(),
    {
        ProgramBuilder {
            fragment_src,
            vertex_src,
            phase: BuildPhase::Unlinked,
            program: 0,
            vertex: 0,
            fragment: 0,
        }
    }

    /// Which answer the build waits for.
    pub fn phase(&self) -> (phase: BuildPhase)
        ensures
            phase == self@.phase,
    {
        self.phase
    }

    /// Deletes the shader objects made so far.
    fn release_shaders(&self, renderer: &mut Renderer)
        ensures
            final(renderer)@ == old(renderer)@ + self@.release_shaders(),
    {
        if let Ok(fragment) = Shader::new(self.fragment) {
            fragment.release(renderer);
        }
        if let Ok(vertex) = Shader::new(self.vertex) {
            vertex.release(renderer);
        }
        assert(renderer@ =~= old(renderer)@ + self@.release_shaders());
    }

    /// Deletes every object made so far.
    fn abandon(&self, renderer: &mut Renderer)
        ensures
            final(renderer)@ == old(renderer)@ + self@.abandon(),
    {
        self.release_shaders(renderer);
        if let Ok(program) = Program::new(self.program) {
            program.release(renderer);
        }
        assert(renderer@ =~= old(renderer)@ + self@.abandon());
    }

    /// Takes one turn of the build: reads `reply`, the driver's answer to the
    /// question of the turn before, issues the calls that follow, and ends
    /// with the next question or with the outcome of the build.
    pub fn build(self, renderer: &mut Renderer, reply: DriverReply) -> (step: BuildStep<'a>)
        ensures
            step@ == self@.step(reply),
            final(renderer)@ == old(renderer)@ + self@.commands(reply),
    {
        let mut builder = self;
        match builder.phase {
            BuildPhase::Unlinked => {
                builder.phase = BuildPhase::CreatingProgram;
                assert(renderer@ =~= old(renderer)@ + self@.commands(reply));
                BuildStep::Ask { builder, query: DriverQuery::CreateProgram }
            },
            BuildPhase::CreatingProgram => {
                assert(renderer@ =~= old(renderer)@ + self@.commands(reply));
                match Program::new(reply.into_name()) {
                    Err(error) => BuildStep::Done { result: Err(error) },
                    Ok(program) => {
                        builder.program = program.id();
                        builder.phase = BuildPhase::CreatingShader { kind: ShaderKind::Vertex };
                        BuildStep::Ask {
                            builder,
                            query: DriverQuery::CreateShader { kind: ShaderKind::Vertex },
                        }
                    },
                }
            },
            BuildPhase::CreatingShader { kind } => {
                match Shader::new(reply.into_name()) {
                    Err(error) => {
                        builder.abandon(renderer);
                        BuildStep::Done { result: Err(error) }
                    },
                    Ok(shader) => {
                        let source = match kind {
                            ShaderKind::Vertex => builder.vertex_src,
                            ShaderKind::Fragment => builder.fragment_src,
                        };
                        renderer.issue(
                            Command::ShaderSource { shader: shader.id(), source: source.to_owned() },
                        );
                        renderer.issue(Command::CompileShader { shader: shader.id() });
                        match kind {
                            ShaderKind::Vertex => {
                                builder.vertex = shader.id();
                            },
                            ShaderKind::Fragment => {
                                builder.fragment = shader.id();
                            },
                        }
                        builder.phase = BuildPhase::Compiling { kind };
                        assert(renderer@ =~= old(renderer)@ + self@.commands(reply));
                        BuildStep::Ask {
                            builder,
                            query: DriverQuery::CompileStatus { shader: shader.id() },
                        }
                    },
                }
            },
            BuildPhase::Compiling { kind } => {
                if !reply.into_passed() {
                    let shader = match kind {
                        ShaderKind::Vertex => builder.vertex,
                        ShaderKind::Fragment => builder.fragment,
                    };
                    builder.phase = BuildPhase::ReadingShaderLog { kind };
                    assert(renderer@ =~= old(renderer)@ + self@.commands(reply));
                    BuildStep::Ask { builder, query: DriverQuery::ShaderInfoLog { shader } }
                } else {
                    match kind {
                        ShaderKind::Vertex => {
                            builder.phase = BuildPhase::CreatingShader {
                                kind: ShaderKind::Fragment,
                            };
                            assert(renderer@ =~= old(renderer)@ + self@.commands(reply));
                            BuildStep::Ask {
                                builder,
                                query: DriverQuery::CreateShader { kind: ShaderKind::Fragment },
                            }
                        },
                        ShaderKind::Fragment => {
                            let program = builder.program;
                            renderer.issue(
                                Command::AttachShader { program, shader: builder.vertex },
                            );
                            renderer.issue(
                                Command::AttachShader { program, shader: builder.fragment },
                            );
                            renderer.issue(Command::LinkProgram { program });
                            builder.phase = BuildPhase::Linking;
                            assert(renderer@ =~= old(renderer)@ + self@.commands(reply));
                            BuildStep::Ask { builder, query: DriverQuery::LinkStatus { program } }
                        },
                    }
                }
            },
            BuildPhase::ReadingShaderLog { kind } => {
                builder.abandon(renderer);
                let result = match decode_strict(reply.into_log()) {
                    Ok(log) => Err(ProgramError::ShaderCompilation(log)),
                    Err(error) => Err(ProgramError::ErrorMsgConversion(error)),
                };
                BuildStep::Done { result }
            },
            BuildPhase::Linking => {
                let program = builder.program;
                renderer.issue(Command::DetachShader { program, shader: builder.vertex });
                renderer.issue(Command::DetachShader { program, shader: builder.fragment });
                assert(renderer@ =~= old(renderer)@ + self@.commands(reply));
                if reply.into_passed() {
                    builder.phase = BuildPhase::Harvesting;
                    BuildStep::Ask { builder, query: DriverQuery::ActiveUniforms { program } }
                } else {
                    builder.phase = BuildPhase::ReadingProgramLog;
                    BuildStep::Ask { builder, query: DriverQuery::ProgramInfoLog { program } }
                }
            },
            BuildPhase::ReadingProgramLog => {
                builder.abandon(renderer);
                let result = match decode_strict(reply.into_log()) {
                    Ok(log) => Err(ProgramError::ProgramLinking(log)),
                    Err(error) => Err(ProgramError::ErrorMsgConversion(error)),
                };
                BuildStep::Done { result }
            },
            BuildPhase::Harvesting => {
                builder.release_shaders(renderer);
                match Program::new(builder.program) {
                    Err(error) => BuildStep::Done { result: Err(error) },
                    Ok(program) => {
                        let mut program = program;
                        program.update_uniforms(reply.into_uniforms());
                        BuildStep::Done { result: Ok(program) }
                    },
                }
            },
        }
    }
}

/// A turn keeps a build in order, and never changes its sources.
pub proof fn lemma_turn_keeps_order(builder: BuilderView, reply: DriverReply)
    requires
        builder.in_order(),
    ensures
        builder.step(reply) matches StepView::Ask { builder: next, .. } ==> {
            &&& next.in_order()
            &&& next.vertex_src == builder.vertex_src
            &&& next.fragment_src == builder.fragment_src
        },
{
}

/// A build in order that has come to read the uniforms ends with the
/// program, whatever the driver lists: once the program has linked, no
/// answer makes the build fail.
pub proof fn lemma_harvest_succeeds(builder: BuilderView, uniforms: DriverReply)
    requires
        builder.in_order(),
        builder.phase is Harvesting,
    ensures
        builder.step(uniforms) == (StepView::Done {
            result: Ok(
                ProgramView { id: builder.program, uniforms: locations(named(uniforms.uniforms())) },
            ),
        }),
{
}

/// A shader that does not compile ends the build with its info log. The
/// failed status makes the build ask for the log of that shader and issue
/// nothing, so no later stage is tried; the log, whatever it is, then ends
/// the build with `ShaderCompilation` of its text, or with
/// `ErrorMsgConversion` where it is not UTF-8, and every object made so far
/// is deleted. A log that is UTF-8 and not empty gives a text that is not
/// empty.
pub proof fn lemma_failed_compile(builder: BuilderView, status: DriverReply, log: DriverReply)
    requires
        builder.phase is Compiling,
        !status.passed(),
    ensures
        ({
            let kind = builder.phase->Compiling_kind;
            let reading = builder.at(BuildPhase::ReadingShaderLog { kind });
            let error = compilation_error(log.log());
            &&& builder.commands(status) == Seq::<CommandView>::empty()
            &&& builder.step(status) == (StepView::Ask {
                builder: reading,
                query: DriverQuery::ShaderInfoLog { shader: builder.shader(kind) },
            })
            &&& reading.commands(log) == builder.abandon()
            &&& reading.step(log) == (StepView::Done { result: Err(error) })
            &&& !valid_utf8(log.log()) ==> error == ErrorView::ErrorMsgConversion
            &&& valid_utf8(log.log()) ==> error == ErrorView::ShaderCompilation(
                decode_utf8(log.log()),
            )
            &&& valid_utf8(log.log()) && log.log().len() > 0 ==> decode_utf8(log.log()).len() > 0
        }),
{
}

/// A program that does not link ends the build with its info log. Whatever
/// the link status, the shaders are detached as soon as it is read. A failed
/// status makes the build ask for the log of the program; the log then ends
/// the build with `ProgramLinking` of its text, or with `ErrorMsgConversion`
/// where it is not UTF-8, and the shaders and the program are deleted. A log
/// that is UTF-8 and not empty gives a text that is not empty.
pub proof fn lemma_failed_link(builder: BuilderView, status: DriverReply, log: DriverReply)
    requires
        builder.phase is Linking,
        !status.passed(),
    ensures
        ({
            let reading = builder.at(BuildPhase::ReadingProgramLog);
            let error = linking_error(log.log());
            &&& builder.commands(status) == seq![
                CommandView::DetachShader { program: builder.program, shader: builder.vertex },
                CommandView::DetachShader { program: builder.program, shader: builder.fragment },
            ]
            &&& builder.step(status) == (StepView::Ask {
                builder: reading,
                query: DriverQuery::ProgramInfoLog { program: builder.program },
            })
            &&& reading.commands(log) == builder.abandon()
            &&& reading.step(log) == (StepView::Done { result: Err(error) })
            &&& !valid_utf8(log.log()) ==> error == ErrorView::ErrorMsgConversion
            &&& valid_utf8(log.log()) ==> error == ErrorView::ProgramLinking(decode_utf8(log.log()))
            &&& valid_utf8(log.log()) && log.log().len() > 0 ==> decode_utf8(log.log()).len() > 0
        }),
{
}

/// Once linking has been tried, the build ends at the turn after next at
/// the latest, and the calls of the turn that ends it begin with the
/// deletion of both shaders, whether the program linked or not.
pub proof fn lemma_shaders_deleted_after_link(
    builder: BuilderView,
    status: DriverReply,
    answer: DriverReply,
)
    requires
        builder.phase is Linking,
    ensures
        ({
            let last = builder.at(
                if status.passed() {
                    BuildPhase::Harvesting
                } else {
                    BuildPhase::ReadingProgramLog
                },
            );
            &&& builder.step(status) is Ask
            &&& builder.step(status)->Ask_builder == last
            &&& last.step(answer) is Done
            &&& builder.release_shaders().is_prefix_of(last.commands(answer))
        }),
{
}

/// The turns of a build in which the driver gives every object and both
/// shaders compile, up to the link: the build asks for the program, the
/// vertex shader, its compile status, the fragment shader and its compile
/// status, in this order, gives each shader its own source before it is
/// compiled, and then attaches both to the program and links it.
pub proof fn lemma_build_reaches_link(
    vertex_src: Seq<char>,
    fragment_src: Seq<char>,
    program: u32,
    vertex: u32,
    fragment: u32,
)
    requires
        program != 0,
        vertex != 0,
        fragment != 0,
    ensures
        ({
            let b0 = BuilderView {
                vertex_src,
                fragment_src,
                phase: BuildPhase::Unlinked,
                program: 0,
                vertex: 0,
                fragment: 0,
            };
            let b1 = b0.at(BuildPhase::CreatingProgram);
            let b2 = (BuilderView { program, ..b1 }).at(
                BuildPhase::CreatingShader { kind: ShaderKind::Vertex },
            );
            let b3 = (BuilderView { vertex, ..b2 }).at(
                BuildPhase::Compiling { kind: ShaderKind::Vertex },
            );
            let b4 = b3.at(BuildPhase::CreatingShader { kind: ShaderKind::Fragment });
            let b5 = (BuilderView { fragment, ..b4 }).at(
                BuildPhase::Compiling { kind: ShaderKind::Fragment },
            );
            let b6 = b5.at(BuildPhase::Linking);
            &&& b0.step(DriverReply::Nothing) == (StepView::Ask {
                builder: b1,
                query: DriverQuery::CreateProgram,
            })
            &&& b1.step(DriverReply::Name(program)) == (StepView::Ask {
                builder: b2,
                query: DriverQuery::CreateShader { kind: ShaderKind::Vertex },
            })
            &&& b2.step(DriverReply::Name(vertex)) == (StepView::Ask {
                builder: b3,
                query: DriverQuery::CompileStatus { shader: vertex },
            })
            &&& b3.step(DriverReply::Status(true)) == (StepView::Ask {
                builder: b4,
                query: DriverQuery::CreateShader { kind: ShaderKind::Fragment },
            })
            &&& b4.step(DriverReply::Name(fragment)) == (StepView::Ask {
                builder: b5,
                query: DriverQuery::CompileStatus { shader: fragment },
            })
            &&& b5.step(DriverReply::Status(true)) == (StepView::Ask {
                builder: b6,
                query: DriverQuery::LinkStatus { program },
            })
            &&& b6.program == program && b6.vertex == vertex && b6.fragment == fragment
            &&& b0.commands(DriverReply::Nothing) + b1.commands(DriverReply::Name(program))
                + b2.commands(DriverReply::Name(vertex)) + b3.commands(DriverReply::Status(true))
                + b4.commands(DriverReply::Name(fragment)) + b5.commands(DriverReply::Status(true))
                == seq![
                CommandView::ShaderSource { shader: vertex, source: vertex_src },
                CommandView::CompileShader { shader: vertex },
                CommandView::ShaderSource { shader: fragment, source: fragment_src },
                CommandView::CompileShader { shader: fragment },
                CommandView::AttachShader { program, shader: vertex },
                CommandView::AttachShader { program, shader: fragment },
                CommandView::LinkProgram { program },
            ]
        }),
{
}

/// The turns of a build from a link that succeeds: the shaders are
/// detached, the uniforms are asked for exactly once, and whatever the
/// driver lists the build ends with the program and the cache of that list,
/// after deleting both shaders.
pub proof fn lemma_linked_build_succeeds(builder: BuilderView, uniforms: DriverReply)
    requires
        builder.phase is Linking,
        builder.program != 0,
    ensures
        ({
            let harvesting = builder.at(BuildPhase::Harvesting);
            &&& builder.step(DriverReply::Status(true)) == (StepView::Ask {
                builder: harvesting,
                query: DriverQuery::ActiveUniforms { program: builder.program },
            })
            &&& harvesting.commands(uniforms) == builder.release_shaders()
            &&& harvesting.step(uniforms) == (StepView::Done {
                result: Ok(
                    ProgramView {
                        id: builder.program,
                        uniforms: locations(named(uniforms.uniforms())),
                    },
                ),
            })
        }),
{
}

} // verus!
