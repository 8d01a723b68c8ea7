//! The renderer: the one object through which every graphics call passes.

use crate::builder::BuildPhase;
use crate::builder::BuilderView;
use crate::builder::ProgramBuilder;
use crate::commands::command_views;
use crate::commands::AttributeKind;
use crate::commands::BufferTarget;
use crate::commands::Command;
use crate::commands::CommandView;
use crate::commands::IndexKind;
use crate::commands::PrimitiveMode;
use crate::indices::index_upload;
use crate::indices::IndexType;
use crate::indices::Indices;
use crate::program::Program;
use crate::vertices::attach_stream;
use crate::vertices::components;
use crate::vertices::vertex_upload;
use crate::vertices::VertexAttribute;
use crate::vertices::VertexAttributeType;
use crate::vertices::Vertices;
use std::marker::PhantomData;
use vstd::prelude::*;

verus! {

/// Bit pattern of the float `0.0`.
pub const FLOAT_ZERO: u32 = 0x0000_0000;

/// Bit pattern of the float `1.0`.
pub const FLOAT_ONE: u32 = 0x3F80_0000;

/// Owner of the stream of graphics calls of one rendering context.
///
/// Operations append the calls they want made; the host takes them out with
/// [`Renderer::take_commands`] and performs them in that order. The view of a
/// renderer is the sequence of calls issued and not yet taken, oldest first.
pub struct Renderer {
    pending: Vec<Command>,
}

impl View for Renderer {
    type V = Seq<CommandView>;

    closed spec fn view(&self) -> Seq<CommandView> {
        command_views(self.pending@)
    }
}

impl Renderer {
    /// A renderer whose context has been given no call yet.
    pub(crate) fn new() -> (renderer: Renderer)
        ensures
            renderer@ == Seq::<CommandView>::empty(),
    {
        let renderer = Renderer { pending: Vec::new() };
        assert(renderer@ =~= Seq::<CommandView>::empty());
        renderer
    }

    /// Records `command` as the newest call.
    pub fn issue(&mut self, command: Command)
        ensures
            final(self)@ == old(self)@.push(command@),
    {
        self.pending.push(command);
        assert(self@ =~= old(self)@.push(command@));
    }

    /// Number of calls issued and not yet taken.
    pub fn pending(&self) -> (n: usize)
        ensures
            n == self@.len(),
    {
        self.pending.len()
    }

    /// Hands out every call not yet taken, oldest first, and keeps none.
    pub fn take_commands(&mut self) -> (commands: Vec<Command>)
        ensures
            command_views(commands@) == old(self)@,
            final(self)@ == Seq::<CommandView>::empty(),
    {
        let mut commands: Vec<Command> = Vec::new();
        std::mem::swap(&mut commands, &mut self.pending);
        assert(self@ =~= Seq::<CommandView>::empty());
        commands
    }

    /// Clears the colour and depth planes of the framebuffer.
    pub fn clear(&mut self)
        ensures
            final(self)@ == old(self)@.push((CommandView::Clear { color: true, depth: true })),
    {
        self.issue(Command::Clear { color: true, depth: true });
    }

    /// Sets the clear colour to opaque black.
    pub fn set_clear_color(&mut self)
        ensures
            final(self)@ == old(self)@.push(
                (CommandView::ClearColor {
                    red: FLOAT_ZERO,
                    green: FLOAT_ZERO,
                    blue: FLOAT_ZERO,
                    alpha: FLOAT_ONE,
                }),
            ),
    {
        self.issue(
            Command::ClearColor {
                red: FLOAT_ZERO,
                green: FLOAT_ZERO,
                blue: FLOAT_ZERO,
                alpha: FLOAT_ONE,
            },
        );
    }

    /// Draws to the rectangle of `w` by `h` pixels at the window's origin.
    pub fn set_viewport(&mut self, w: i32, h: i32)
        ensures
            final(self)@ == old(self)@.push(
                (CommandView::Viewport { x: 0, y: 0, width: w, height: h }),
            ),
    {
        self.issue(Command::Viewport { x: 0, y: 0, width: w, height: h });
    }

    /// Starts the build of the program of `vertex_src` and `fragment_src`.
    pub fn create_shader_program<'a>(&self, vertex_src: &'a str, fragment_src: &'a str) -> (builder:
        ProgramBuilder<'a>)
        ensures
            builder@ == (BuilderView {
                vertex_src: vertex_src@,
                fragment_src: fragment_src@,
                phase: BuildPhase::Unlinked,
                program: 0,
                vertex: 0,
                fragment: 0,
            }),
    {
        ProgramBuilder::new(vertex_src, fragment_src)
    }

    /// Uploads `indices` to the buffer `buffer`, a name that the driver has
    /// just generated, and returns the handle that owns it. The handle
    /// reports `SIZE` indices.
    ///
    /// The indices must take no more bytes than the signed size that the
    /// driver is given can hold, as every array in memory does.
    pub fn create_indices<I: IndexType, const SIZE: usize>(
        &mut self,
        buffer: u32,
        indices: &[I; SIZE],
    ) -> (created: Indices<I, SIZE>)
        requires
            SIZE * I::kind_spec().width() <= isize::MAX,
        ensures
            created.buffer() == buffer,
            created.len() == SIZE,
            final(self)@ == old(self)@ + index_upload(buffer, I::contents(indices@)),
    {
        Indices::new(self, buffer, indices)
    }

    /// Uploads `data` to the buffer `buffer` under the vertex-array object
    /// `vertex_array`, two names that the driver has just generated, and
    /// returns the handle that owns both.
    ///
    /// The data must take no more bytes than the signed size that the driver
    /// is given can hold, as every array in memory does.
    pub fn create_vertices<T: VertexAttributeType, const AMOUNT: usize, const SIZE: usize>(
        &mut self,
        vertex_array: u32,
        buffer: u32,
        data: &[VertexAttribute<T, SIZE>; AMOUNT],
    ) -> (created: Vertices<T, AMOUNT, SIZE>)
        requires
            AMOUNT * SIZE * T::kind_spec().width() <= isize::MAX,
        ensures
            created.vertex_array() == vertex_array,
            created.buffer() == buffer,
            final(self)@ == old(self)@ + vertex_upload(
                vertex_array,
                buffer,
                T::contents(components(data@)),
            ),
    {
        Vertices::new(self, vertex_array, buffer, data)
    }

    /// Opens a draw: makes `program` the current program and returns the
    /// stage at which vertex streams are attached, with no slot taken yet.
    pub fn render_vertices(&mut self, program: &Program) -> (stage: VertexStage)
        ensures
            stage.layout_index() == 0,
            final(self)@ == old(self)@.push((CommandView::UseProgram { program: program@.id })),
    {
        program.apply(self);
        VertexStage::new()
    }
}

/// The calls that end a draw which has taken the attribute slots below
/// `slots`: one indexed draw of `count` indices of `kind` as a triangle
/// list, then each taken slot switched off, lowest first.
pub open spec fn finish_draw(count: usize, kind: IndexKind, slots: u32) -> Seq<CommandView> {
    seq![
        CommandView::DrawElements { mode: PrimitiveMode::Triangles, count, kind, offset: 0 },
    ] + disable_slots(slots)
}

/// The calls that switch off the attribute slots below `slots`, lowest
/// first.
pub open spec fn disable_slots(slots: u32) -> Seq<CommandView> {
    Seq::new(slots as nat, |i: int| CommandView::DisableVertexAttribArray { index: i as u32 })
}

/// A draw to which vertex streams are being attached. Each stream takes the
/// next attribute slot, the first one slot 0.
///
/// A stage is used up by each step, so a step cannot be taken twice, and a
/// draw is issued only by going through the stages in order.
pub struct VertexStage {
    layout_index: u32,
}

impl VertexStage {
    /// The slot that the next stream takes: the number of streams attached
    /// so far.
    pub closed spec fn layout_index(&self) -> u32 {
        self.layout_index
    }

    fn new() -> (stage: Self)
        ensures
            stage.layout_index() == 0,
    {
        VertexStage { layout_index: 0 }
    }

    /// The number of streams attached so far.
    pub fn slots(&self) -> (slots: u32)
        ensures
            slots == self.layout_index(),
    {
        self.layout_index
    }

    /// Attaches `vertices` as the stream of the next attribute slot. Slots
    /// are numbered in 32 bits, so a stage that has taken `u32::MAX` of them
    /// takes no more.
    pub fn add_vertices<T: VertexAttributeType, const AMOUNT: usize, const SIZE: usize>(
        self,
        renderer: &mut Renderer,
        vertices: &Vertices<T, AMOUNT, SIZE>,
    ) -> (stage: Self)
        requires
            self.layout_index() < u32::MAX,
        ensures
            stage.layout_index() == self.layout_index() + 1,
            final(renderer)@ == old(renderer)@ + attach_stream(
                self.layout_index(),
                vertices.buffer(),
                SIZE,
                T::kind_spec(),
            ),
    {
        vertices.render(renderer, self.layout_index);
        VertexStage { layout_index: self.layout_index + 1 }
    }

    /// Binds `indices` as the indices of the draw and returns the stage at
    /// which the draw is issued. No stream can be attached after this.
    pub fn with_indices<I: IndexType, const SIZE: usize>(
        self,
        renderer: &mut Renderer,
        indices: &Indices<I, SIZE>,
    ) -> (stage: IndexStage<I>)
        ensures
            stage.layout_index() == self.layout_index(),
            stage.indices_len() == indices.len(),
            final(renderer)@ == old(renderer)@.push(
                (CommandView::BindBuffer {
                    target: BufferTarget::ElementArray,
                    buffer: indices.buffer(),
                }),
            ),
    {
        indices.bind(renderer);
        IndexStage {
            indices_len: indices.len(),
            layout_index: self.layout_index,
            _p: PhantomData,
        }
    }
}

/// A draw whose streams and indices are bound, ready to be issued.
pub struct IndexStage<I: IndexType> {
    indices_len: usize,
    layout_index: u32,
    _p: PhantomData<I>,
}

impl<I: IndexType> IndexStage<I> {
    /// The number of attribute slots that the draw has taken.
    pub closed spec fn layout_index(&self) -> u32 {
        self.layout_index
    }

    /// The number of indices that the draw reads.
    pub closed spec fn indices_len(&self) -> usize {
        self.indices_len
    }

    /// Issues the draw, then switches off every attribute slot that it took,
    /// so that none stays on for the next draw.
    pub fn finish(self, renderer: &mut Renderer)
        ensures
            final(renderer)@ == old(renderer)@ + finish_draw(
                self.indices_len(),
                I::kind_spec(),
                self.layout_index(),
            ),
    {
        renderer.issue(
            Command::DrawElements {
                mode: PrimitiveMode::Triangles,
                count: self.indices_len,
                kind: I::kind(),
                offset: 0,
            },
        );
        let ghost drawn = renderer@;
        let mut i: u32 = 0;
        while i < self.layout_index
            invariant
                i <= self.layout_index,
                renderer@ == drawn + disable_slots(i),
            decreases self.layout_index - i,
        {
            renderer.issue(Command::DisableVertexAttribArray { index: i });
            assert(disable_slots((i + 1) as u32) =~= disable_slots(i).push(
                (CommandView::DisableVertexAttribArray { index: i }),
            ));
            assert(renderer@ =~= drawn + disable_slots((i + 1) as u32));
            i += 1;
        }
        assert(renderer@ =~= old(renderer)@ + finish_draw(
            self.indices_len(),
            I::kind_spec(),
            self.layout_index(),
        ));
    }
}

/// A vertex stream as a draw sees it.
pub struct StreamView {
    /// Name of its buffer object.
    pub buffer: u32,
    /// Components per vertex.
    pub width: usize,
    /// Type of its components.
    pub kind: AttributeKind,
}

/// The calls that attach `streams` in order, the first to slot 0.
pub open spec fn attach_streams(streams: Seq<StreamView>) -> Seq<CommandView>
    decreases streams.len(),
{
    if streams.len() == 0 {
        Seq::empty()
    } else {
        attach_streams(streams.drop_last()) + attach_stream(
            (streams.len() - 1) as u32,
            streams.last().buffer,
            streams.last().width,
            streams.last().kind,
        )
    }
}

/// The calls of one whole draw, as the stages issue them: the program is
/// made current, `streams` are attached in order, the indices in
/// `index_buffer` are bound, and the draw of `count` indices of `kind` is
/// finished.
pub open spec fn draw_chain(
    program: u32,
    streams: Seq<StreamView>,
    index_buffer: u32,
    count: usize,
    kind: IndexKind,
) -> Seq<CommandView> {
    seq![CommandView::UseProgram { program }] + attach_streams(streams) + seq![
        CommandView::BindBuffer { target: BufferTarget::ElementArray, buffer: index_buffer },
    ] + finish_draw(count, kind, streams.len() as u32)
}

/// The draw calls among `commands`, in order.
pub open spec fn draws(commands: Seq<CommandView>) -> Seq<CommandView>
    decreases commands.len(),
{
    if commands.len() == 0 {
        Seq::empty()
    } else if commands.last() is DrawElements {
        draws(commands.drop_last()).push(commands.last())
    } else {
        draws(commands.drop_last())
    }
}

/// The attribute slots that are on after `commands`, where those in
/// `enabled` were on before: a slot is on from a call that enables it to
/// the next call that disables it.
pub open spec fn enabled_after(enabled: Set<u32>, commands: Seq<CommandView>) -> Set<u32>
    decreases commands.len(),
{
    if commands.len() == 0 {
        enabled
    } else {
        let before = enabled_after(enabled, commands.drop_last());
        match commands.last() {
            CommandView::EnableVertexAttribArray { index } => before.insert(index),
            CommandView::DisableVertexAttribArray { index } => before.remove(index),
            _ => before,
        }
    }
}

/// The slots below `slots`.
pub open spec fn slots_below(slots: nat) -> Set<u32> {
    Set::new(|i: u32| i < slots)
}

proof fn lemma_draws_concat(first: Seq<CommandView>, second: Seq<CommandView>)
    ensures
        draws(first + second) == draws(first) + draws(second),
    decreases second.len(),
{
    if second.len() == 0 {
        assert(first + second == first);
        assert(draws(first) + draws(second) == draws(first));
    } else {
        assert((first + second).drop_last() == first + second.drop_last());
        lemma_draws_concat(first, second.drop_last());
        if second.last() is DrawElements {
            assert(draws(first) + draws(second.drop_last()).push(second.last()) == (draws(first)
                + draws(second.drop_last())).push(second.last()));
        }
    }
}

proof fn lemma_enabled_concat(enabled: Set<u32>, first: Seq<CommandView>, second: Seq<CommandView>)
    ensures
        enabled_after(enabled, first + second) == enabled_after(
            enabled_after(enabled, first),
            second,
        ),
    decreases second.len(),
{
    if second.len() == 0 {
        assert(first + second == first);
    } else {
        assert((first + second).drop_last() == first + second.drop_last());
        lemma_enabled_concat(enabled, first, second.drop_last());
    }
}

proof fn lemma_one_call(enabled: Set<u32>, call: CommandView)
    ensures
        draws(seq![call]) == if call is DrawElements {
            seq![call]
        } else {
            Seq::<CommandView>::empty()
        },
        enabled_after(enabled, seq![call]) == match call {
            CommandView::EnableVertexAttribArray { index } => enabled.insert(index),
            CommandView::DisableVertexAttribArray { index } => enabled.remove(index),
            _ => enabled,
        },
{
    reveal_with_fuel(draws, 2);
    reveal_with_fuel(enabled_after, 2);
    assert(seq![call].drop_last() == Seq::<CommandView>::empty());
    assert(seq![call].last() == call);
    assert(Seq::<CommandView>::empty().push(call) == seq![call]);
}

proof fn lemma_attach_stream(
    enabled: Set<u32>,
    slot: u32,
    buffer: u32,
    width: usize,
    kind: AttributeKind,
)
    ensures
        draws(attach_stream(slot, buffer, width, kind)) == Seq::<CommandView>::empty(),
        enabled_after(enabled, attach_stream(slot, buffer, width, kind)) == enabled.insert(slot),
{
    let calls = attach_stream(slot, buffer, width, kind);
    let enable = seq![calls[0]];
    let bind = seq![calls[1]];
    let point = seq![calls[2]];
    assert(calls == enable + bind + point);
    lemma_one_call(enabled, calls[0]);
    lemma_one_call(enabled.insert(slot), calls[1]);
    lemma_one_call(enabled.insert(slot), calls[2]);
    lemma_draws_concat(enable, bind);
    lemma_draws_concat(enable + bind, point);
    lemma_enabled_concat(enabled, enable, bind);
    lemma_enabled_concat(enabled, enable + bind, point);
}

proof fn lemma_attach_streams(enabled: Set<u32>, streams: Seq<StreamView>)
    requires
        streams.len() <= u32::MAX,
    ensures
        draws(attach_streams(streams)) == Seq::<CommandView>::empty(),
        enabled_after(enabled, attach_streams(streams)) == enabled.union(
            slots_below(streams.len()),
        ),
    decreases streams.len(),
{
    if streams.len() == 0 {
        assert(enabled.union(slots_below(0)) =~= enabled);
    } else {
        let rest = streams.drop_last();
        let slot = (streams.len() - 1) as u32;
        let last = attach_stream(
            slot,
            streams.last().buffer,
            streams.last().width,
            streams.last().kind,
        );
        lemma_attach_streams(enabled, rest);
        lemma_draws_concat(attach_streams(rest), last);
        lemma_enabled_concat(enabled, attach_streams(rest), last);
        lemma_attach_stream(
            enabled_after(enabled, attach_streams(rest)),
            slot,
            streams.last().buffer,
            streams.last().width,
            streams.last().kind,
        );
        assert(enabled.union(slots_below(rest.len())).insert(slot) =~= enabled.union(
            slots_below(streams.len()),
        ));
    }
}

proof fn lemma_disable_slots(enabled: Set<u32>, slots: u32)
    ensures
        draws(disable_slots(slots)) == Seq::<CommandView>::empty(),
        enabled_after(enabled, disable_slots(slots)) == enabled.difference(
            slots_below(slots as nat),
        ),
    decreases slots,
{
    if slots == 0 {
        assert(enabled.difference(slots_below(0)) =~= enabled);
    } else {
        let rest = (slots - 1) as u32;
        lemma_disable_slots(enabled, rest);
        assert(disable_slots(slots).drop_last() == disable_slots(rest));
        assert(disable_slots(slots).last() == (CommandView::DisableVertexAttribArray {
            index: rest,
        }));
        assert(enabled.difference(slots_below(rest as nat)).remove(rest) =~= enabled.difference(
            slots_below(slots as nat),
        ));
    }
}

/// A whole draw issues exactly one draw call, of the number and type of
/// indices it was given; while that call is made, exactly the slots of its
/// streams have been switched on by it, one per stream in the order of
/// attaching; and when the draw is over every one of those slots is off,
/// whatever was on before, while the other slots are as they were.
pub proof fn lemma_draw_chain(
    enabled: Set<u32>,
    program: u32,
    streams: Seq<StreamView>,
    index_buffer: u32,
    count: usize,
    kind: IndexKind,
)
    requires
        streams.len() <= u32::MAX,
    ensures
        draws(draw_chain(program, streams, index_buffer, count, kind)) == seq![
            CommandView::DrawElements { mode: PrimitiveMode::Triangles, count, kind, offset: 0 },
        ],
        enabled_after(
            enabled,
            seq![CommandView::UseProgram { program }] + attach_streams(streams) + seq![
                CommandView::BindBuffer { target: BufferTarget::ElementArray, buffer: index_buffer },
            ],
        ) == enabled.union(slots_below(streams.len())),
        enabled_after(enabled, draw_chain(program, streams, index_buffer, count, kind))
            == enabled.difference(slots_below(streams.len())),
{
    let slots = streams.len() as u32;
    let start = seq![CommandView::UseProgram { program }];
    let attach = attach_streams(streams);
    let bind = seq![
        CommandView::BindBuffer { target: BufferTarget::ElementArray, buffer: index_buffer },
    ];
    let draw = seq![
        CommandView::DrawElements { mode: PrimitiveMode::Triangles, count, kind, offset: 0 },
    ];
    let disable = disable_slots(slots);
    let with_streams = enabled.union(slots_below(streams.len()));
    lemma_one_call(enabled, start[0]);
    lemma_one_call(with_streams, bind[0]);
    lemma_one_call(with_streams, draw[0]);
    lemma_attach_streams(enabled, streams);
    lemma_disable_slots(with_streams, slots);
    lemma_draws_concat(start, attach);
    lemma_draws_concat(start + attach, bind);
    lemma_draws_concat(draw, disable);
    lemma_draws_concat(start + attach + bind, draw + disable);
    lemma_enabled_concat(enabled, start, attach);
    lemma_enabled_concat(enabled, start + attach, bind);
    lemma_enabled_concat(with_streams, draw, disable);
    lemma_enabled_concat(enabled, start + attach + bind, draw + disable);
    assert(draw_chain(program, streams, index_buffer, count, kind) == start + attach + bind + (draw
        + disable));
    assert(enabled.union(slots_below(streams.len())).difference(slots_below(streams.len()))
        =~= enabled.difference(slots_below(streams.len())));
}

/// In a run of attached streams, the stream at position `at` is attached by
/// the three calls that start at `3 * at`, to the slot `at`, with its own
/// buffer, width and component type.
pub proof fn lemma_stream_slot(streams: Seq<StreamView>, at: int)
    requires
        streams.len() <= u32::MAX,
        0 <= at < streams.len(),
    ensures
        attach_streams(streams).len() == 3 * streams.len(),
        attach_streams(streams).subrange(3 * at, 3 * at + 3) == attach_stream(
            at as u32,
            streams[at].buffer,
            streams[at].width,
            streams[at].kind,
        ),
    decreases streams.len(),
{
    let rest = streams.drop_last();
    lemma_attach_len(rest);
    lemma_attach_len(streams);
    if at < streams.len() - 1 {
        lemma_stream_slot(rest, at);
        assert(attach_streams(streams).subrange(3 * at, 3 * at + 3) =~= attach_streams(
            rest,
        ).subrange(3 * at, 3 * at + 3));
    } else {
        assert(attach_streams(streams).subrange(3 * at, 3 * at + 3) =~= attach_stream(
            at as u32,
            streams[at].buffer,
            streams[at].width,
            streams[at].kind,
        ));
    }
}

proof fn lemma_attach_len(streams: Seq<StreamView>)
    ensures
        attach_streams(streams).len() == 3 * streams.len(),
    decreases streams.len(),
{
    if streams.len() > 0 {
        lemma_attach_len(streams.drop_last());
    }
}

} // verus!
