//! Vertex buffers: one attribute of every vertex, as fixed-width records.

use crate::commands::AttributeKind;
use crate::commands::BufferContents;
use crate::commands::BufferTarget;
use crate::commands::BufferUsage;
use crate::commands::Command;
use crate::commands::CommandView;
use crate::commands::ContentsView;
use crate::renderer::Renderer;
use crate::values::FloatBits;
use std::marker::PhantomData;
use vstd::prelude::*;

verus! {

/// A numeric type that the components of a vertex attribute can have.
pub trait VertexAttributeType: Copy {
    /// The component type that the driver is told to read.
    spec fn kind_spec() -> AttributeKind;

    /// The data of an upload of `components`.
    spec fn contents(components: Seq<Self>) -> ContentsView;

    /// The component type that the driver is told to read.
    fn kind() -> (kind: AttributeKind)
        ensures
            kind == Self::kind_spec(),
    ;

    /// Moves `components` into the data of an upload.
    fn pack(components: Vec<Self>) -> (data: BufferContents)
        ensures
            data@ == Self::contents(components@),
            data@.len() == components@.len(),
            data@.element_width() == Self::kind_spec().width(),
    ;
}

impl VertexAttributeType for FloatBits {
    open spec fn kind_spec() -> AttributeKind {
        AttributeKind::Float
    }

    open spec fn contents(components: Seq<FloatBits>) -> ContentsView {
        ContentsView::Floats(components.map_values(|c: FloatBits| c.0))
    }

    fn kind() -> (kind: AttributeKind) {
        AttributeKind::Float
    }

    fn pack(components: Vec<FloatBits>) -> (data: BufferContents) {
        let mut bits: Vec<u32> = Vec::new();
        let mut i: usize = 0;
        while i < components.len()
            invariant
                i <= components.len(),
                bits@ == components@.take(i as int).map_values(|c: FloatBits| c.0),
            decreases components.len() - i,
        {
            bits.push(components[i].0);
            assert(components@.take(i + 1) == components@.take(i as int).push(components@[i as int]));
            i += 1;
        }
        assert(components@.take(i as int) == components@);
        BufferContents::Floats(bits)
    }
}

/// The attribute of one vertex: `SIZE` components of type `T`.
#[derive(Clone, Copy, Debug, PartialEq, Eq)]
pub struct VertexAttribute<T: VertexAttributeType, const SIZE: usize>([T; SIZE]);

impl<T: VertexAttributeType, const SIZE: usize> View for VertexAttribute<T, SIZE> {
    type V = Seq<T>;

    closed spec fn view(&self) -> Seq<T> {
        self.0@
    }
}

impl<T: VertexAttributeType, const SIZE: usize> VertexAttribute<T, SIZE> {
    /// The attribute with the components `data`, in order.
    pub fn new(data: [T; SIZE]) -> (attribute: Self)
        ensures
            attribute@ == data@,
    {
        VertexAttribute(data)
    }

    /// Every attribute has exactly `SIZE` components.
    pub proof fn lemma_width(self)
        ensures
            self@.len() == SIZE,
    {
        broadcast use vstd::array::array_len_matches_n;

    }
}

/// The components of `records`, record after record.
pub open spec fn components<T: VertexAttributeType, const SIZE: usize>(
    records: Seq<VertexAttribute<T, SIZE>>,
) -> Seq<T>
    decreases records.len(),
{
    if records.len() == 0 {
        Seq::empty()
    } else {
        components(records.drop_last()) + records.last()@
    }
}

/// `records` hold `SIZE` components each.
pub proof fn lemma_components_len<T: VertexAttributeType, const SIZE: usize>(
    records: Seq<VertexAttribute<T, SIZE>>,
)
    ensures
        components(records).len() == records.len() * SIZE,
    decreases records.len(),
{
    if records.len() > 0 {
        lemma_components_len(records.drop_last());
        records.last().lemma_width();
        assert((records.len() - 1) * SIZE + SIZE == records.len() * SIZE) by (nonlinear_arith);
    } else {
        assert(0 * SIZE == 0);
    }
}

/// The calls that fill a fresh buffer `buffer` with `data` for use as
/// vertex data, under the fresh vertex-array object `array`: bind the array,
/// bind the buffer, then upload with a static usage hint.
pub open spec fn vertex_upload(array: u32, buffer: u32, data: ContentsView) -> Seq<CommandView> {
    seq![
        CommandView::BindVertexArray { array },
        CommandView::BindBuffer { target: BufferTarget::Array, buffer },
        CommandView::BufferData {
            target: BufferTarget::Array,
            size: data.byte_len() as usize,
            data,
            usage: BufferUsage::StaticDraw,
        },
    ]
}

/// The calls that let attribute slot `slot` read from `buffer`: enable the
/// slot, bind the buffer, and describe its records as `width` tightly packed
/// components of `kind`, taken as they are.
pub open spec fn attach_stream(slot: u32, buffer: u32, width: usize, kind: AttributeKind) -> Seq<
    CommandView,
> {
    seq![
        CommandView::EnableVertexAttribArray { index: slot },
        CommandView::BindBuffer { target: BufferTarget::Array, buffer },
        CommandView::VertexAttribPointer {
            index: slot,
            size: width,
            kind,
            normalized: false,
            stride: 0,
            offset: 0,
        },
    ]
}

/// Handle of one GPU buffer that holds `AMOUNT` vertex attributes of `SIZE`
/// components of type `T` each, and of the vertex-array object made with it.
///
/// The handle owns both objects: it is the only one for them, and
/// [`Vertices::release`] consumes it.
pub struct Vertices<T: VertexAttributeType, const AMOUNT: usize, const SIZE: usize> {
    buffer: u32,
    vao: u32,
    _p: PhantomData<T>,
}

impl<T: VertexAttributeType, const AMOUNT: usize, const SIZE: usize> Vertices<T, AMOUNT, SIZE> {
    /// Name of the buffer object.
    pub closed spec fn buffer(&self) -> u32 {
        self.buffer
    }

    /// Name of the vertex-array object.
    pub closed spec fn vertex_array(&self) -> u32 {
        self.vao
    }

    /// Uploads `vertex_data` to the buffer `buffer` under the vertex-array
    /// object `vertex_array`, two names that the driver has just generated,
    /// and returns the handle that owns both.
    ///
    /// The data must take no more bytes than the signed size that the driver
    /// is given can hold, as every array in memory does.
    pub fn new(
        renderer: &mut Renderer,
        vertex_array: u32,
        buffer: u32,
        vertex_data: &[VertexAttribute<T, SIZE>; AMOUNT],
    ) -> (created: Self)
        requires
            AMOUNT * SIZE * T::kind_spec().width() <= isize::MAX,
        ensures
            created.vertex_array() == vertex_array,
            created.buffer() == buffer,
            final(renderer)@ == old(renderer)@ + vertex_upload(
                vertex_array,
                buffer,
                T::contents(components(vertex_data@)),
            ),
    {
        let mut flat: Vec<T> = Vec::new();
        let mut i: usize = 0;
        while i < AMOUNT
            invariant
                i <= AMOUNT,
                vertex_data@.len() == AMOUNT,
                flat@ == components(vertex_data@.take(i as int)),
            decreases AMOUNT - i,
        {
            let record = &vertex_data[i];
            let ghost before = flat@;
            let mut j: usize = 0;
            proof {
                record.lemma_width();
            }
            while j < SIZE
                invariant
                    j <= SIZE,
                    record@.len() == SIZE,
                    flat@ == before + record@.take(j as int),
                decreases SIZE - j,
            {
                flat.push(record.0[j]);
                assert(record@.take(j + 1) == record@.take(j as int).push(record@[j as int]));
                j += 1;
            }
            proof {
                assert(record@.take(SIZE as int) == record@);
                let next = vertex_data@.take(i + 1);
                assert(next.drop_last() == vertex_data@.take(i as int));
                assert(next.last() == *record);
            }
            i += 1;
        }
        proof {
            assert(vertex_data@.take(AMOUNT as int) == vertex_data@);
            lemma_components_len(vertex_data@);
        }
        let data = T::pack(flat);
        assert(AMOUNT * SIZE <= AMOUNT * SIZE * T::kind_spec().width()) by (nonlinear_arith)
            requires
                T::kind_spec().width() >= 1,
        ;
        let size: usize = AMOUNT * SIZE * T::kind().byte_width();
        renderer.issue(Command::BindVertexArray { array: vertex_array });
        renderer.issue(Command::BindBuffer { target: BufferTarget::Array, buffer });
        renderer.issue(
            Command::BufferData { target: BufferTarget::Array, size, data, usage: BufferUsage::StaticDraw },
        );
        assert(renderer@ =~= old(renderer)@ + vertex_upload(
            vertex_array,
            buffer,
            T::contents(components(vertex_data@)),
        ));
        Vertices { buffer, vao: vertex_array, _p: PhantomData }
    }

    /// Lets attribute slot `layout_index` of the current program read this
    /// buffer. Whatever buffer was current for vertex data before is no
    /// longer.
    pub fn render(&self, renderer: &mut Renderer, layout_index: u32)
        ensures
            final(renderer)@ == old(renderer)@ + attach_stream(
                layout_index,
                self.buffer(),
                SIZE,
                T::kind_spec(),
            ),
    {
        renderer.issue(Command::EnableVertexAttribArray { index: layout_index });
        renderer.issue(Command::BindBuffer { target: BufferTarget::Array, buffer: self.buffer });
        renderer.issue(
            Command::VertexAttribPointer {
                index: layout_index,
                size: SIZE,
                kind: T::kind(),
                normalized: false,
                stride: 0,
                offset: 0,
            },
        );
        assert(renderer@ =~= old(renderer)@ + attach_stream(
            layout_index,
            self.buffer(),
            SIZE,
            T::kind_spec(),
        ));
    }

    /// Gives the buffer and the vertex-array object back to the driver. The
    /// handle is consumed, so each is deleted once and never used after.
    pub fn release(self, renderer: &mut Renderer)
        ensures
            final(renderer)@ == old(renderer)@ + seq![
                CommandView::DeleteBuffer { buffer: self.buffer() },
                CommandView::DeleteVertexArray { array: self.vertex_array() },
            ],
    {
        renderer.issue(Command::DeleteBuffer { buffer: self.buffer });
        renderer.issue(Command::DeleteVertexArray { array: self.vao });
        assert(renderer@ =~= old(renderer)@ + seq![
            CommandView::DeleteBuffer { buffer: self.buffer() },
            CommandView::DeleteVertexArray { array: self.vertex_array() },
        ]);
    }
}

} // verus!
