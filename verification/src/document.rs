//! The layered scene model: a document of image buffers, each an ordered
//! sequence of layers, every layer owning one texture sized exactly to the
//! document's fixed pixel extent.
//!
//! Layers are only created through the document that owns the extent, so a
//! layer with a different size is unrepresentable, not merely checked.
//! This core is append-only: reordering, deletion and compositing are the
//! external collaborator's concern.

use vstd::prelude::*;

verus! {

/// Texture dimensions in texels.
#[derive(Clone, Copy, PartialEq, Eq, Structural, Debug)]
pub struct Extent3d {
    pub width: u32,
    pub height: u32,
    pub depth_or_array_layers: u32,
}

/// One editing layer: it owns one GPU texture whose dimensions are the
/// extent it was created under.
pub struct Layer {
    extent: Extent3d,
}

impl Layer {
    /// The dimensions of the layer's texture.
    pub closed spec fn spec_extent(self) -> Extent3d {
        self.extent
    }

    /// The dimensions of the layer's texture.
    pub fn extent(&self) -> (r: Extent3d)
        ensures
            r == self.spec_extent(),
    {
        self.extent
    }
}

/// An ordered sequence of layers bound to one shared extent.
pub struct ImageBuffer {
    texture_size: Extent3d,
    layers: Vec<Layer>,
}

impl ImageBuffer {
    /// The extent this buffer is bound to.
    pub closed spec fn spec_extent(self) -> Extent3d {
        self.texture_size
    }

    /// The layers, oldest first.
    pub closed spec fn spec_layers(self) -> Seq<Layer> {
        self.layers@
    }

    /// Every layer's texture is sized exactly to `extent`, the extent this
    /// buffer references.
    pub open spec fn wf_for(self, extent: Extent3d) -> bool {
        &&& self.spec_extent() == extent
        &&& forall|j: int|
            0 <= j < self.spec_layers().len() ==> (#[trigger] self.spec_layers()[j]).spec_extent()
                == extent
    }

    /// Creates an empty layer sequence bound to `texture_size`.
    pub fn new(texture_size: Extent3d) -> (r: ImageBuffer)
        ensures
            r.wf_for(texture_size),
            r.spec_layers() == Seq::<Layer>::empty(),
    {
        ImageBuffer { texture_size, layers: Vec::new() }
    }

    /// Number of layers.
    pub fn num_layers(&self) -> (r: usize)
        ensures
            r == self.spec_layers().len(),
    {
        self.layers.len()
    }

    /// The extent this buffer is bound to.
    pub fn extent(&self) -> (r: Extent3d)
        ensures
            r == self.spec_extent(),
    {
        self.texture_size
    }

    /// The texture dimensions of the layer at `index`.
    pub fn layer_extent(&self, index: usize) -> (r: Extent3d)
        requires
            index < self.spec_layers().len(),
        ensures
            r == self.spec_layers()[index as int].spec_extent(),
    {
        self.layers[index].extent()
    }

    /// Appends a layer whose texture is sized to this buffer's extent.
    /// No other layer is touched.
    pub fn add_layer(&mut self)
        ensures
            final(self).spec_extent() == old(self).spec_extent(),
            final(self).spec_layers().len() == old(self).spec_layers().len() + 1,
            forall|j: int|
                0 <= j < old(self).spec_layers().len() ==> final(self).spec_layers()[j] == old(self).spec_layers()[j],
            final(self).spec_layers().last().spec_extent() == old(self).spec_extent(),
            forall|e: Extent3d| #[trigger] old(self).wf_for(e) ==> final(self).wf_for(e),
    {
        let layer = Layer { extent: self.texture_size };
        self.layers.push(layer);
    }
}

/// A document: a fixed pixel extent (width, height, depth 1) established at
/// creation, and an ordered, append-only sequence of image buffers.
pub struct Document {
    texture_size: Extent3d,
    buffers: Vec<ImageBuffer>,
}

impl Document {
    /// The document's fixed extent.
    pub closed spec fn spec_extent(self) -> Extent3d {
        self.texture_size
    }

    /// The image buffers, oldest first.
    pub closed spec fn spec_buffers(self) -> Seq<ImageBuffer> {
        self.buffers@
    }

    /// The extent has depth 1, and every buffer — hence every layer — is
    /// bound to exactly the document's extent.
    pub open spec fn wf(self) -> bool {
        &&& self.spec_extent().depth_or_array_layers == 1
        &&& forall|i: int|
            0 <= i < self.spec_buffers().len() ==> (#[trigger] self.spec_buffers()[i]).wf_for(
                self.spec_extent(),
            )
    }

    /// Establishes the fixed extent (width, height, depth 1) and an empty
    /// buffer sequence.
    pub fn new(width: u32, height: u32) -> (r: Document)
        ensures
            r.wf(),
            r.spec_extent() == (Extent3d { width, height, depth_or_array_layers: 1 }),
            r.spec_buffers() == Seq::<ImageBuffer>::empty(),
    {
        Document {
            texture_size: Extent3d { width, height, depth_or_array_layers: 1 },
            buffers: Vec::new(),
        }
    }

    /// The document's fixed extent.
    pub fn extent(&self) -> (r: Extent3d)
        ensures
            r == self.spec_extent(),
    {
        self.texture_size
    }

    /// Number of image buffers.
    pub fn num_buffers(&self) -> (r: usize)
        ensures
            r == self.spec_buffers().len(),
    {
        self.buffers.len()
    }

    /// Appends an empty image buffer bound to the document's extent.
    pub fn add_image_buffer(&mut self)
        requires
            old(self).wf(),
        ensures
            final(self).wf(),
            final(self).spec_extent() == old(self).spec_extent(),
            final(self).spec_buffers().len() == old(self).spec_buffers().len() + 1,
            forall|i: int|
                0 <= i < old(self).spec_buffers().len() ==> final(self).spec_buffers()[i] == old(self).spec_buffers()[i],
            final(self).spec_buffers().last().spec_layers() == Seq::<Layer>::empty(),
    {
        let buffer = ImageBuffer::new(self.texture_size);
        self.buffers.push(buffer);
    }

    /// Appends to the buffer at `buffer_index` a layer whose texture is
    /// sized exactly to the document's extent. Every other buffer, and every
    /// existing layer, is unchanged.
    pub fn add_layer(&mut self, buffer_index: usize)
        requires
            old(self).wf(),
            buffer_index < old(self).spec_buffers().len(),
        ensures
            final(self).wf(),
            final(self).spec_extent() == old(self).spec_extent(),
            final(self).spec_buffers().len() == old(self).spec_buffers().len(),
            forall|i: int|
                0 <= i < old(self).spec_buffers().len() && i != buffer_index ==> final(self).spec_buffers()[i] == old(self).spec_buffers()[i],
            final(self).spec_buffers()[buffer_index as int].spec_layers().len() == old(self).spec_buffers()[buffer_index as int].spec_layers().len() + 1,
            forall|j: int|
                0 <= j < old(self).spec_buffers()[buffer_index as int].spec_layers().len()
                    ==> final(self).spec_buffers()[buffer_index as int].spec_layers()[j] == old(self).spec_buffers()[buffer_index as int].spec_layers()[j],
            final(self).spec_buffers()[
                buffer_index as int].spec_layers().last().spec_extent() == old(self).spec_extent(),
    {
        let mut buffer = self.buffers.remove(buffer_index);
        buffer.add_layer();
        self.buffers.insert(buffer_index, buffer);
        proof {
            let obs = old(self).spec_buffers();
            let nbs = self.spec_buffers();
            assert forall|i: int| 0 <= i < obs.len() && i != buffer_index implies nbs[i] == obs[i]
            by {
                if i < buffer_index {
                } else {
                }
            }
        }
    }

    /// Number of layers in the buffer at `buffer_index`.
    pub fn num_layers(&self, buffer_index: usize) -> (r: usize)
        requires
            buffer_index < self.spec_buffers().len(),
        ensures
            r == self.spec_buffers()[buffer_index as int].spec_layers().len(),
    {
        self.buffers[buffer_index].num_layers()
    }

    /// The texture dimensions of one layer.
    pub fn layer_extent(&self, buffer_index: usize, layer_index: usize) -> (r: Extent3d)
        requires
            buffer_index < self.spec_buffers().len(),
            layer_index < self.spec_buffers()[buffer_index as int].spec_layers().len(),
        ensures
            r == self.spec_buffers()[buffer_index as int].spec_layers()[
                layer_index as int].spec_extent(),
    {
        self.buffers[buffer_index].layer_extent(layer_index)
    }
}

/// Every layer of every image buffer of a well-formed document has texture
/// dimensions exactly the document's extent: a layer with an independent
/// size is unrepresentable.
pub proof fn lemma_layer_extent_matches_document(doc: Document, i: int, j: int)
    requires
        doc.wf(),
        0 <= i < doc.spec_buffers().len(),
        0 <= j < doc.spec_buffers()[i].spec_layers().len(),
    ensures
        doc.spec_buffers()[i].spec_layers()[j].spec_extent() == doc.spec_extent(),
{
}

} // verus!
