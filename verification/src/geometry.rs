//! Geometry upload: validation of host-side vertex data and the model of the
//! GPU objects that hold it.
//!
//! Vertex components are carried as `u32` bit patterns of 32-bit floats; the
//! upload logic reads only their count, never their numeric value, so the bit
//! patterns pass through unchanged. The driver layer reinterprets them when it
//! copies the buffer to the GPU.

use vstd::prelude::*;

verus! {

/// How raw vertex components map to one shader input attribute.
#[derive(Clone, Copy, Debug, PartialEq, Eq, Structural)]
pub struct VertexLayout {
    /// The shader input attribute the data feeds.
    pub attribute_index: u32,
    /// Components per vertex.
    pub components: u32,
    /// Bytes from one vertex to the next.
    pub stride_bytes: u32,
    /// Bytes before the first component.
    pub offset_bytes: u32,
}

impl VertexLayout {
    /// A layout is well formed when it is tightly packed: at least one
    /// component per vertex, a stride of exactly four bytes per component,
    /// and no leading offset.
    pub open spec fn wf(&self) -> bool {
        &&& 0 < self.components
        &&& self.stride_bytes == self.components * 4
        &&& self.offset_bytes == 0
    }

    /// The layout for position-only geometry: attribute 0, three float
    /// components per vertex, tightly packed.
    pub fn position_only() -> (l: VertexLayout)
        ensures
            l.wf(),
            l.attribute_index == 0,
            l.components == 3,
            l.stride_bytes == 12,
            l.offset_bytes == 0,
    {
        VertexLayout { attribute_index: 0, components: 3, stride_bytes: 12, offset_bytes: 0 }
    }
}

/// Rejection of an upload before any GPU call is issued.
#[derive(Clone, Copy, Debug, PartialEq, Eq, Structural)]
pub enum GeometryError {
    /// The vertex data is empty or its length is not a multiple of the
    /// layout's component count.
    InvalidLayout,
}

/// A source of fresh GPU object names. Name generation hands out names that
/// are never zero and never repeat, which this model keeps as a counter.
#[derive(Clone, Copy, Debug, PartialEq, Eq, Structural)]
pub struct HandleAllocator {
    /// The next name to hand out.
    pub next: u32,
}

impl HandleAllocator {
    /// Every name handed out so far was non-zero, and the next will be.
    pub open spec fn wf(&self) -> bool {
        1 <= self.next
    }

    /// A fresh allocator whose first name is 1.
    pub fn new() -> (a: HandleAllocator)
        ensures
            a.wf(),
            a.next == 1,
    {
        HandleAllocator { next: 1 }
    }

    /// Hands out one fresh non-zero name.
    pub fn fresh(&mut self) -> (h: u32)
        requires
            old(self).wf(),
            old(self).next < u32::MAX,
        ensures
            h == old(self).next,
            h != 0,
            final(self).next == old(self).next + 1,
            final(self).wf(),
    {
        let h = self.next;
        self.next = self.next + 1;
        h
    }
}

/// GPU-resident geometry: the buffer object holding the vertex bytes, the
/// vertex-array object binding buffer and layout together, and the number of
/// vertices uploaded.
#[derive(Clone, Copy, Debug, PartialEq, Eq, Structural)]
pub struct GeometryBuffer {
    /// Name of the buffer object.
    pub vbo: u32,
    /// Name of the vertex-array object.
    pub vao: u32,
    /// Number of vertices the buffer holds.
    pub vertex_count: u32,
}

impl GeometryBuffer {
    /// Both names are non-zero and distinct, and the buffer holds at least
    /// one vertex.
    pub open spec fn wf(&self) -> bool {
        &&& self.vbo != 0
        &&& self.vao != 0
        &&& self.vbo != self.vao
        &&& 0 < self.vertex_count
    }
}

/// Vertex data fits a layout when it is non-empty and covers whole vertices.
pub open spec fn valid_vertex_data(len: nat, components: nat) -> bool {
    &&& 0 < len
    &&& len % components == 0
}

/// The number of bytes the buffer object receives: four per component.
pub fn buffer_byte_length(vertices: &Vec<u32>) -> (n: usize)
    requires
        vertices@.len() * 4 <= usize::MAX,
    ensures
        n == vertices@.len() * 4,
{
    vertices.len() * 4
}

/// Uploads vertex data: allocates one buffer object and one vertex-array
/// object, records the layout against the buffer, and reports both names.
/// Empty data, or a length that does not cover whole vertices, is a caller
/// error and is rejected before any name is allocated.
pub fn upload(alloc: &mut HandleAllocator, vertices: &Vec<u32>, layout: &VertexLayout) -> (r:
    Result<GeometryBuffer, GeometryError>)
    requires
        old(alloc).wf(),
        old(alloc).next <= u32::MAX - 2,
        layout.wf(),
        vertices@.len() <= u32::MAX,
    ensures
        r is Ok <==> valid_vertex_data(vertices@.len(), layout.components as nat),
        r matches Ok(g) ==> {
            &&& g.wf()
            &&& g.vbo == old(alloc).next
            &&& g.vao == old(alloc).next + 1
            &&& g.vbo != g.vao
            &&& g.vertex_count == vertices@.len() / (layout.components as nat)
            &&& final(alloc).next == old(alloc).next + 2
            &&& final(alloc).wf()
        },
        r is Err ==> r == Result::<GeometryBuffer, GeometryError>::Err(
            GeometryError::InvalidLayout,
        ) && *final(alloc) == *old(alloc),
{
    let len = vertices.len();
    if len == 0 || len as u64 % layout.components as u64 != 0 {
        return Err(GeometryError::InvalidLayout);
    }
    let vbo = alloc.fresh();
    let vao = alloc.fresh();
    let vertex_count = (len as u32) / layout.components;
    proof {
        assert(vertices@.len() % (layout.components as nat) == 0);
        assert(0 < vertices@.len() / (layout.components as nat)) by (nonlinear_arith)
            requires
                0 < vertices@.len(),
                0 < layout.components,
                vertices@.len() % (layout.components as nat) == 0,
        ;
    }
    Ok(GeometryBuffer { vbo, vao, vertex_count })
}

} // verus!
