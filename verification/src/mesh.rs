use core::marker::PhantomData;
use vstd::prelude::*;
use crate::object::MeshBufferRef;

verus! {

/// Used to setup vertex shader attributes: the byte size of an attribute and
/// its offset within a vertex.
#[derive(Clone, Copy, Debug, PartialEq, Eq, Structural)]
pub struct Attribute {
    pub size: usize,
    pub offset: usize,
}

/// Describes the attributes of a vertex type.
pub trait AttributeDescriptor {
    /// The attributes of one vertex, in shader location order.
    fn get_attributes() -> Vec<Attribute>;
}

/// Mesh struct stores the mesh data in CPU memory.
pub struct Mesh<V: AttributeDescriptor, I> {
    pub vertices: Vec<V>,
    pub indices: Vec<I>,
}

impl<V: AttributeDescriptor, I> Mesh<V, I> {
    /// Byte size of the vertex data.
    pub open spec fn spec_vertex_bytes(&self) -> nat {
        self.vertices@.len() * vstd::layout::size_of::<V>()
    }

    /// Byte size of the index data.
    pub open spec fn spec_index_bytes(&self) -> nat {
        self.indices@.len() * vstd::layout::size_of::<I>()
    }

    /// Byte sizes of the vertex and of the index data.
    pub fn byte_sizes(&self) -> (r: (u64, u64))
        requires
            self.spec_vertex_bytes() <= u64::MAX,
            self.spec_index_bytes() <= u64::MAX,
            self.spec_vertex_bytes() <= usize::MAX,
            self.spec_index_bytes() <= usize::MAX,
        ensures
            r.0 == self.spec_vertex_bytes(),
            r.1 == self.spec_index_bytes(),
    {
        let v = self.vertices.len() * core::mem::size_of::<V>();
        let i = self.indices.len() * core::mem::size_of::<I>();
        (v as u64, i as u64)
    }

    /// Total byte size of the mesh data.
    pub fn size(&self) -> (r: u64)
        requires
            self.spec_vertex_bytes() + self.spec_index_bytes() <= u64::MAX,
            self.spec_vertex_bytes() <= usize::MAX,
            self.spec_index_bytes() <= usize::MAX,
        ensures
            r == self.spec_vertex_bytes() + self.spec_index_bytes(),
    {
        let (v, i) = self.byte_sizes();
        v + i
    }
}

/// Mesh data in GPU memory, typed by its vertex and index types.
///
/// Its view is the untyped mesh data it wraps.
pub struct MeshBuffer<V: AttributeDescriptor, I> {
    inner: MeshBufferRef,
    _tp: PhantomData<(V, I)>,
}

impl<V: AttributeDescriptor, I> View for MeshBuffer<V, I> {
    type V = MeshBufferRef;

    closed spec fn view(&self) -> MeshBufferRef {
        self.inner
    }
}

impl<V: AttributeDescriptor, I> MeshBuffer<V, I> {
    /// Wraps mesh data in GPU memory.
    pub fn new(inner: MeshBufferRef) -> (r: Self)
        ensures
            r@ == inner,
    {
        MeshBuffer { inner, _tp: PhantomData }
    }

    /// The untyped mesh data.
    pub fn inner(&self) -> (r: MeshBufferRef)
        ensures
            r == self@,
    {
        self.inner
    }
}

/// Format of a vertex attribute: one to four 32-bit floats.
#[derive(Clone, Copy, Debug, PartialEq, Eq, Structural)]
pub enum VertexFormat {
    R32Float,
    R32G32Float,
    R32G32B32Float,
    R32G32B32A32Float,
}

/// The format of an attribute of `size` bytes: as many floats as fit, three
/// for sizes other than 4, 8, 12 and 16.
pub open spec fn spec_vertex_format(size: usize) -> VertexFormat {
    if size == 4 {
        VertexFormat::R32Float
    } else if size == 8 {
        VertexFormat::R32G32Float
    } else if size == 16 {
        VertexFormat::R32G32B32A32Float
    } else {
        VertexFormat::R32G32B32Float
    }
}

/// One attribute of the vertex input: shader location, format and offset.
#[derive(Clone, Copy, Debug, PartialEq, Eq, Structural)]
pub struct VertexAttributeInput {
    pub location: u32,
    pub format: VertexFormat,
    pub offset: u32,
}

/// Sum of the attribute sizes (each taken as 32 bits) of the first `n` attributes.
pub open spec fn spec_stride(attributes: Seq<Attribute>, n: nat) -> int
    decreases n,
{
    if n == 0 { 0 } else { spec_stride(attributes, (n - 1) as nat) + attributes[n - 1].size as u32 }
}

/// Vertex input of a graphics pipeline: the stride of one vertex and its attributes.
pub struct VertexInputPlan {
    pub stride: u32,
    pub attributes: Vec<VertexAttributeInput>,
}

/// Plans the vertex input of a graphics pipeline: one binding whose stride is
/// the sum of the attribute sizes, and attribute `i` at location `i` with the
/// format its size selects and its own offset.
pub fn plan_vertex_input(attributes: &[Attribute]) -> (r: VertexInputPlan)
    requires
        attributes@.len() <= u32::MAX,
        forall|n: nat| n <= attributes@.len() ==> #[trigger] spec_stride(attributes@, n) <= u32::MAX,
    ensures
        r.stride == spec_stride(attributes@, attributes@.len()),
        r.attributes@.len() == attributes@.len(),
        forall|i: int| 0 <= i < attributes@.len() ==> #[trigger] r.attributes@[i] == (VertexAttributeInput {
            location: i as u32,
            format: spec_vertex_format(attributes@[i].size),
            offset: attributes@[i].offset as u32,
        }),
{
    let mut stride: u32 = 0;
    let mut inputs: Vec<VertexAttributeInput> = Vec::new();
    let mut i: usize = 0;
    while i < attributes.len()
        invariant
            i <= attributes@.len(),
            attributes@.len() <= u32::MAX,
            forall|n: nat| n <= attributes@.len() ==> #[trigger] spec_stride(attributes@, n) <= u32::MAX,
            stride == spec_stride(attributes@, i as nat),
            inputs@.len() == i,
            forall|k: int| 0 <= k < i ==> #[trigger] inputs@[k] == (VertexAttributeInput {
                location: k as u32,
                format: spec_vertex_format(attributes@[k].size),
                offset: attributes@[k].offset as u32,
            }),
        decreases attributes@.len() - i,
    {
        let a = attributes[i];
        assert(spec_stride(attributes@, (i + 1) as nat) <= u32::MAX);
        stride = stride + a.size as u32;
        let format = if a.size == 4 {
            VertexFormat::R32Float
        } else if a.size == 8 {
            VertexFormat::R32G32Float
        } else if a.size == 12 {
            VertexFormat::R32G32B32Float
        } else if a.size == 16 {
            VertexFormat::R32G32B32A32Float
        } else {
            VertexFormat::R32G32B32Float
        };
        inputs.push(VertexAttributeInput { location: i as u32, format, offset: a.offset as u32 });
        i = i + 1;
    }
    VertexInputPlan { stride, attributes: inputs }
}

/// Type of the indices of a mesh.
#[derive(Clone, Copy, Debug, PartialEq, Eq, Structural)]
pub enum IndexKind {
    Uint8,
    Uint16,
    Uint32,
    /// An index size the GPU has no type for.
    Unknown,
}

/// The index type of indices of `index_size` bytes.
pub fn index_kind(index_size: usize) -> (r: IndexKind)
    ensures
        r == (if index_size == 1 {
            IndexKind::Uint8
        } else if index_size == 2 {
            IndexKind::Uint16
        } else if index_size == 4 {
            IndexKind::Uint32
        } else {
            IndexKind::Unknown
        }),
{
    match index_size {
        1 => IndexKind::Uint8,
        2 => IndexKind::Uint16,
        4 => IndexKind::Uint32,
        _ => IndexKind::Unknown,
    }
}

/// Parameters of an indexed draw.
#[derive(Clone, Copy, Debug, PartialEq, Eq, Structural)]
pub struct DrawParams {
    pub index_count: u32,
    pub instance_count: u32,
    pub first_instance: u32,
}

/// The draw of a mesh object: as many indices as the index buffer holds
/// (truncated to 32 bits), `array` instances, starting at instance `index`.
pub fn draw_params(mesh: &MeshBufferRef, index: u32, array: u32) -> (r: DrawParams)
    requires
        mesh.index_size > 0,
    ensures
        r == (DrawParams {
            index_count: (mesh.index_bytes / (mesh.index_size as u64)) as u32,
            instance_count: array,
            first_instance: index,
        }),
{
    let count = mesh.index_bytes / mesh.index_size as u64;
    DrawParams { index_count: count as u32, instance_count: array, first_instance: index }
}

} // verus!
