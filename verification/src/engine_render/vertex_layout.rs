//! The layout of the renderer's vertices: packed 32-bit float attributes,
//! one after the other, read by the vertex shader at consecutive locations.

use vstd::prelude::*;

verus! {

/// The components of the renderer's vertex attributes, in order: position,
/// normal and color (three floats each) and texture coordinates (two).
pub open spec fn static_vertex_components() -> Seq<u32> {
    seq![3u32, 3u32, 3u32, 2u32]
}

/// The components of the renderer's vertex attributes, in order.
pub fn vertex_components() -> (components: Vec<u32>)
    ensures
        components@ == static_vertex_components(),
{
    let mut components: Vec<u32> = Vec::new();
    components.push(3);
    components.push(3);
    components.push(3);
    components.push(2);
    components
}

/// The Vulkan format of a float attribute with `components` components:
/// R32_SFLOAT, R32G32_SFLOAT, R32G32B32_SFLOAT or R32G32B32A32_SFLOAT.
pub open spec fn float_format(components: u32) -> i32 {
    if components == 1 {
        100
    } else if components == 2 {
        103
    } else if components == 3 {
        106
    } else {
        109
    }
}

/// The number of floats before attribute `count` of a packed vertex.
pub open spec fn floats_before(components: Seq<u32>, count: int) -> int
    decreases count,
{
    if count <= 0 {
        0
    } else {
        floats_before(components, count - 1) + components[count - 1]
    }
}

/// One attribute of the vertex input: its shader location, format and byte
/// offset in the vertex.
#[derive(Debug, Clone, Copy, PartialEq, Eq, Structural)]
pub struct VertexAttribute {
    pub location: u32,
    pub format: i32,
    pub offset: u32,
}

/// Whether a packed vertex of these attributes fits the sizes Vulkan takes:
/// each attribute one to four floats, few enough attributes and bytes.
pub open spec fn packable(components: Seq<u32>) -> bool {
    &&& components.len() <= 32
    &&& forall|i: int| 0 <= i < components.len() ==> 1 <= #[trigger] components[i] <= 4
}

proof fn lemma_floats_before_bounded(components: Seq<u32>, count: int)
    requires
        packable(components),
        0 <= count <= components.len(),
    ensures
        0 <= floats_before(components, count) <= 4 * count,
    decreases count,
{
    if count > 0 {
        lemma_floats_before_bounded(components, count - 1);
    }
}

/// The attributes of a packed float vertex: attribute `i` at location `i`,
/// right after the ones before it.
pub fn packed_vertex_attributes(components: &[u32]) -> (attributes: Vec<VertexAttribute>)
    requires
        packable(components@),
    ensures
        attributes@.len() == components@.len(),
        forall|i: int|
            0 <= i < components@.len() ==> #[trigger] attributes@[i] == (VertexAttribute {
                location: i as u32,
                format: float_format(components@[i]),
                offset: (4 * floats_before(components@, i)) as u32,
            }),
{
    let mut attributes: Vec<VertexAttribute> = Vec::new();
    let mut floats: u32 = 0;
    let mut i: usize = 0;
    while i < components.len()
        invariant
            packable(components@),
            i <= components@.len(),
            floats == floats_before(components@, i as int),
            attributes@.len() == i,
            forall|k: int|
                0 <= k < i ==> #[trigger] attributes@[k] == (VertexAttribute {
                    location: k as u32,
                    format: float_format(components@[k]),
                    offset: (4 * floats_before(components@, k)) as u32,
                }),
        decreases components@.len() - i,
    {
        proof {
            lemma_floats_before_bounded(components@, i as int);
        }
        let count = components[i];
        let format: i32 = if count == 1 {
            100
        } else if count == 2 {
            103
        } else if count == 3 {
            106
        } else {
            109
        };
        attributes.push(VertexAttribute { location: i as u32, format, offset: 4 * floats });
        floats = floats + count;
        i = i + 1;
    }
    attributes
}

/// The byte size of a packed float vertex: four bytes per float.
pub fn packed_vertex_stride(components: &[u32]) -> (stride: u32)
    requires
        packable(components@),
    ensures
        stride == 4 * floats_before(components@, components@.len() as int),
{
    let mut floats: u32 = 0;
    let mut i: usize = 0;
    while i < components.len()
        invariant
            packable(components@),
            i <= components@.len(),
            floats == floats_before(components@, i as int),
        decreases components@.len() - i,
    {
        proof {
            lemma_floats_before_bounded(components@, i as int);
        }
        floats = floats + components[i];
        i = i + 1;
    }
    proof {
        lemma_floats_before_bounded(components@, i as int);
    }
    4 * floats
}

} // verus!
