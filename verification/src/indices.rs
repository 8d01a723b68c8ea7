//! Index buffers: which vertices a draw visits, and in what order.

mod sealed;

use crate::commands::BufferContents;
use crate::commands::BufferTarget;
use crate::commands::BufferUsage;
use crate::commands::Command;
use crate::commands::CommandView;
use crate::commands::ContentsView;
use crate::commands::IndexKind;
use crate::renderer::Renderer;
use std::marker::PhantomData;
use vstd::prelude::*;
use vstd::slice::slice_to_vec;

use sealed::Sealed;

verus! {

/// An unsigned integer type whose values can index vertices.
pub trait IndexType: Sealed + Copy {
    /// The element type that a draw is told to read.
    spec fn kind_spec() -> IndexKind;

    /// The data of an upload of `indices`.
    spec fn contents(indices: Seq<Self>) -> ContentsView;

    /// The element type that a draw is told to read.
    fn kind() -> (kind: IndexKind)
        ensures
            kind == Self::kind_spec(),
    ;

    /// Copies `indices` into the data of an upload.
    fn pack(indices: &[Self]) -> (data: BufferContents)
        ensures
            data@ == Self::contents(indices@),
            data@.len() == indices@.len(),
            data@.element_width() == Self::kind_spec().width(),
    ;
}

impl IndexType for u8 {
    open spec fn kind_spec() -> IndexKind {
        IndexKind::UnsignedByte
    }

    open spec fn contents(indices: Seq<u8>) -> ContentsView {
        ContentsView::Bytes(indices)
    }

    fn kind() -> (kind: IndexKind) {
        IndexKind::UnsignedByte
    }

    fn pack(indices: &[u8]) -> (data: BufferContents) {
        BufferContents::Bytes(slice_to_vec(indices))
    }
}

impl IndexType for u16 {
    open spec fn kind_spec() -> IndexKind {
        IndexKind::UnsignedShort
    }

    open spec fn contents(indices: Seq<u16>) -> ContentsView {
        ContentsView::Shorts(indices)
    }

    fn kind() -> (kind: IndexKind) {
        IndexKind::UnsignedShort
    }

    fn pack(indices: &[u16]) -> (data: BufferContents) {
        BufferContents::Shorts(slice_to_vec(indices))
    }
}

impl IndexType for u32 {
    open spec fn kind_spec() -> IndexKind {
        IndexKind::UnsignedInt
    }

    open spec fn contents(indices: Seq<u32>) -> ContentsView {
        ContentsView::Words(indices)
    }

    fn kind() -> (kind: IndexKind) {
        IndexKind::UnsignedInt
    }

    fn pack(indices: &[u32]) -> (data: BufferContents) {
        BufferContents::Words(slice_to_vec(indices))
    }
}

/// The calls that fill a fresh buffer `buffer` with `data` for use as index
/// data: bind it, then upload with a static usage hint.
pub open spec fn index_upload(buffer: u32, data: ContentsView) -> Seq<CommandView> {
    seq![
        CommandView::BindBuffer { target: BufferTarget::ElementArray, buffer },
        CommandView::BufferData {
            target: BufferTarget::ElementArray,
            size: data.byte_len() as usize,
            data,
            usage: BufferUsage::StaticDraw,
        },
    ]
}

/// Handle of one GPU buffer that holds `SIZE` indices of type `I`.
///
/// The handle owns the buffer: it is the only one for it, and
/// [`Indices::release`] consumes it.
pub struct Indices<I: IndexType, const SIZE: usize> {
    buffer: u32,
    len: usize,
    _p: PhantomData<I>,
}

impl<I: IndexType, const SIZE: usize> Indices<I, SIZE> {
    /// Name of the buffer object.
    pub closed spec fn buffer(&self) -> u32 {
        self.buffer
    }

    /// Number of indices in the buffer.
    pub closed spec fn spec_len(&self) -> usize {
        self.len
    }

    /// Uploads `indices` to the buffer `buffer`, a name that the driver has
    /// just generated, and returns the handle that owns it. The handle
    /// reports `SIZE` indices.
    ///
    /// The indices must take no more bytes than the signed size that the
    /// driver is given can hold, as every array in memory does.
    pub fn new(renderer: &mut Renderer, buffer: u32, indices: &[I; SIZE]) -> (created: Self)
        requires
            SIZE * I::kind_spec().width() <= isize::MAX,
        ensures
            created.buffer() == buffer,
            created.len() == SIZE,
            final(renderer)@ == old(renderer)@ + index_upload(buffer, I::contents(indices@)),
    {
        let data = I::pack(indices.as_slice());
        let size: usize = indices.len() * I::kind().byte_width();
        renderer.issue(Command::BindBuffer { target: BufferTarget::ElementArray, buffer });
        renderer.issue(
            Command::BufferData {
                target: BufferTarget::ElementArray,
                size,
                data,
                usage: BufferUsage::StaticDraw,
            },
        );
        assert(renderer@ =~= old(renderer)@ + index_upload(buffer, I::contents(indices@)));
        Indices { buffer, len: indices.len(), _p: PhantomData }
    }

    /// Makes the buffer the current element buffer. Whatever buffer was
    /// current for indices before is no longer.
    pub fn bind(&self, renderer: &mut Renderer)
        ensures
            final(renderer)@ == old(renderer)@.push(
                (CommandView::BindBuffer {
                    target: BufferTarget::ElementArray,
                    buffer: self.buffer(),
                }),
            ),
    {
        renderer.issue(
            Command::BindBuffer { target: BufferTarget::ElementArray, buffer: self.buffer },
        );
    }

    /// Number of indices in the buffer.
    #[verifier::when_used_as_spec(spec_len)]
    pub fn len(&self) -> (len: usize)
        ensures
            len == self.spec_len(),
    {
        self.len
    }

    /// Gives the buffer back to the driver. The handle is consumed, so the
    /// buffer is deleted once and never used after.
    pub fn release(self, renderer: &mut Renderer)
        ensures
            final(renderer)@ == old(renderer)@.push(
                (CommandView::DeleteBuffer { buffer: self.buffer() }),
            ),
    {
        renderer.issue(Command::DeleteBuffer { buffer: self.buffer });
    }
}

} // verus!
