//! Vertex buffer layouts: attributes packed one after another, each at the
//! byte offset where the previous one ends, with consecutive shader
//! locations.

use vstd::prelude::*;

verus! {

/// The attribute formats the renderer's buffers use (vectors of `f32`).
#[derive(Debug, Clone, Copy, PartialEq, Eq, Structural)]
pub enum AttributeFormat {
    Float32x2,
    Float32x3,
    Float32x4,
}

/// Whether the buffer advances per vertex or per instance.
#[derive(Debug, Clone, Copy, PartialEq, Eq, Structural)]
pub enum StepMode {
    Vertex,
    Instance,
}

/// One attribute of a vertex buffer.
#[derive(Debug, Clone, Copy, PartialEq, Eq, Structural)]
pub struct VertexAttribute {
    pub offset: u64,
    pub shader_location: u32,
    pub format: AttributeFormat,
}

/// The layout of one vertex buffer.
pub struct BufferLayout {
    pub array_stride: u64,
    pub step_mode: StepMode,
    pub attributes: Vec<VertexAttribute>,
}

/// Size in bytes of one attribute: four bytes per `f32` component.
pub open spec fn format_size(f: AttributeFormat) -> nat {
    match f {
        AttributeFormat::Float32x2 => 8,
        AttributeFormat::Float32x3 => 12,
        AttributeFormat::Float32x4 => 16,
    }
}

/// Total size in bytes of the first `n` attributes.
pub open spec fn packed_size(formats: Seq<AttributeFormat>, n: int) -> nat
    decreases n,
{
    if n <= 0 {
        0
    } else {
        packed_size(formats, n - 1) + format_size(formats[n - 1])
    }
}

impl AttributeFormat {
    /// Size in bytes of one attribute of this format.
    pub fn size(&self) -> (s: u64)
        ensures
            s == format_size(*self),
    {
        match self {
            AttributeFormat::Float32x2 => 8,
            AttributeFormat::Float32x3 => 12,
            AttributeFormat::Float32x4 => 16,
        }
    }
}

proof fn lemma_packed_size_bound(formats: Seq<AttributeFormat>, n: int)
    requires
        0 <= n,
    ensures
        packed_size(formats, n) <= 16 * n,
    decreases n,
{
    if n > 0 {
        lemma_packed_size_bound(formats, n - 1);
    }
}

/// The layout of a buffer whose elements are the given attributes packed
/// without gaps, bound to shader locations from `first_location` on; the
/// stride is the size of all attributes together.
pub fn packed_layout(step_mode: StepMode, first_location: u32, formats: &[AttributeFormat]) -> (l: BufferLayout)
    requires
        first_location + formats@.len() <= u32::MAX,
    ensures
        l.step_mode == step_mode,
        l.array_stride == packed_size(formats@, formats@.len() as int),
        l.attributes@.len() == formats@.len(),
        forall|i: int| 0 <= i < formats@.len() ==> {
            &&& (#[trigger] l.attributes@[i]).offset == packed_size(formats@, i)
            &&& l.attributes@[i].shader_location == first_location + i
            &&& l.attributes@[i].format == formats@[i]
        },
        forall|i: int| 0 <= i < formats@.len() - 1 ==>
            #[trigger] l.attributes@[i + 1].offset == l.attributes@[i].offset + format_size(l.attributes@[i].format),
        formats@.len() > 0 ==> l.attributes@[0].offset == 0,
        formats@.len() > 0 ==> l.array_stride == l.attributes@[formats@.len() - 1].offset
            + format_size(l.attributes@[formats@.len() - 1].format),
        formats@.len() == 0 ==> l.array_stride == 0,
{
    let mut attributes: Vec<VertexAttribute> = Vec::new();
    let mut offset: u64 = 0;
    let mut k: usize = 0;
    while k < formats.len()
        invariant
            k <= formats@.len(),
            first_location + formats@.len() <= u32::MAX,
            offset == packed_size(formats@, k as int),
            attributes@.len() == k,
            forall|i: int| 0 <= i < k ==> {
                &&& (#[trigger] attributes@[i]).offset == packed_size(formats@, i)
                &&& attributes@[i].shader_location == first_location + i
                &&& attributes@[i].format == formats@[i]
            },
        decreases formats@.len() - k,
    {
        proof {
            lemma_packed_size_bound(formats@, k + 1);
        }
        let format = formats[k];
        attributes.push(VertexAttribute { offset, shader_location: first_location + k as u32, format });
        offset = offset + format.size();
        k = k + 1;
    }
    assert forall|i: int| 0 <= i < formats@.len() - 1 implies
        #[trigger] attributes@[i + 1].offset == attributes@[i].offset + format_size(attributes@[i].format) by {
        assert(attributes@[i + 1].offset == packed_size(formats@, i + 1));
    }
    BufferLayout { array_stride: offset, step_mode, attributes }
}

/// The layout of a model vertex: position, texture coordinate and normal,
/// at shader locations 0, 1 and 2.
pub fn model_vertex_layout() -> (l: BufferLayout)
    ensures
        l.step_mode == StepMode::Vertex,
        l.array_stride == 32,
        l.attributes@ == seq![
            VertexAttribute { offset: 0, shader_location: 0, format: AttributeFormat::Float32x3 },
            VertexAttribute { offset: 12, shader_location: 1, format: AttributeFormat::Float32x2 },
            VertexAttribute { offset: 20, shader_location: 2, format: AttributeFormat::Float32x3 },
        ],
{
    let formats = [AttributeFormat::Float32x3, AttributeFormat::Float32x2, AttributeFormat::Float32x3];
    let l = packed_layout(StepMode::Vertex, 0, formats.as_slice());
    assert(l.attributes@ =~= seq![
        VertexAttribute { offset: 0, shader_location: 0, format: AttributeFormat::Float32x3 },
        VertexAttribute { offset: 12, shader_location: 1, format: AttributeFormat::Float32x2 },
        VertexAttribute { offset: 20, shader_location: 2, format: AttributeFormat::Float32x3 },
    ]) by {
        reveal_with_fuel(packed_size, 4);
    }
    assert(l.array_stride == 32) by {
        reveal_with_fuel(packed_size, 4);
    }
    l
}

/// The layout of an instance: the four columns of its model matrix, at
/// shader locations 5 to 8.
pub fn instance_layout() -> (l: BufferLayout)
    ensures
        l.step_mode == StepMode::Instance,
        l.array_stride == 64,
        l.attributes@ == seq![
            VertexAttribute { offset: 0, shader_location: 5, format: AttributeFormat::Float32x4 },
            VertexAttribute { offset: 16, shader_location: 6, format: AttributeFormat::Float32x4 },
            VertexAttribute { offset: 32, shader_location: 7, format: AttributeFormat::Float32x4 },
            VertexAttribute { offset: 48, shader_location: 8, format: AttributeFormat::Float32x4 },
        ],
{
    let formats = [AttributeFormat::Float32x4, AttributeFormat::Float32x4, AttributeFormat::Float32x4, AttributeFormat::Float32x4];
    let l = packed_layout(StepMode::Instance, 5, formats.as_slice());
    assert(l.attributes@ =~= seq![
        VertexAttribute { offset: 0, shader_location: 5, format: AttributeFormat::Float32x4 },
        VertexAttribute { offset: 16, shader_location: 6, format: AttributeFormat::Float32x4 },
        VertexAttribute { offset: 32, shader_location: 7, format: AttributeFormat::Float32x4 },
        VertexAttribute { offset: 48, shader_location: 8, format: AttributeFormat::Float32x4 },
    ]) by {
        reveal_with_fuel(packed_size, 5);
    }
    assert(l.array_stride == 64) by {
        reveal_with_fuel(packed_size, 5);
    }
    l
}

} // verus!
