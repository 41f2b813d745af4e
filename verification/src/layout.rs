//! Interleaved vertex buffer layouts.
//!
//! Given the per-vertex attributes in the order the interleaved vertex data
//! was written, [`build_layout`] computes each attribute's byte offset (the
//! sum of the byte sizes of the attributes before it) and the overall stride
//! (the sum of all attribute byte sizes, with no hidden padding). The order
//! is the caller's: nothing here reorders attributes, because producer and
//! consumer of the vertex data must agree on it.

use vstd::prelude::*;

verus! {

/// Names of the per-vertex attributes this pipeline understands.
#[derive(Clone, Copy, PartialEq, Eq, Structural, Debug)]
pub enum VertexAttributeName {
    Position,
    Uv,
    Color,
    Normal,
}

/// One named per-vertex attribute: how many components it has, and how many
/// bytes one vertex's worth of it occupies.
#[derive(Clone, Copy, PartialEq, Eq, Structural, Debug)]
pub struct VertexAttributeSpec {
    pub name: VertexAttributeName,
    pub component_count: u32,
    pub byte_size: u64,
}

/// A placed attribute: the attribute itself, the byte offset from the start
/// of one vertex at which its data begins, and the shader location it is
/// bound to (its position in the caller's order).
#[derive(Clone, Copy, PartialEq, Eq, Structural, Debug)]
pub struct PlacedVertexAttribute {
    pub attribute: VertexAttributeSpec,
    pub offset: u64,
    pub shader_location: u32,
}

/// An interleaved vertex buffer layout: the attributes in caller order, each
/// with its computed offset, and the stride of one vertex's data.
#[derive(Clone, PartialEq, Eq, Debug)]
pub struct VertexBufferLayout {
    pub attributes: Vec<PlacedVertexAttribute>,
    pub stride: u64,
}

/// Configuration errors surfaced while building a layout. These are fatal:
/// they abort pipeline construction and are never retried.
#[derive(Clone, Copy, PartialEq, Eq, Structural, Debug)]
pub enum LayoutError {
    /// The attribute list was empty; a mesh with no attributes cannot be
    /// rendered.
    EmptyVertexLayout,
}

/// The sum of the byte sizes of the first `n` attributes: the byte offset at
/// which attribute `n` begins in one vertex's interleaved data.
pub open spec fn size_prefix(attrs: Seq<VertexAttributeSpec>, n: int) -> int
    decreases n,
{
    if n <= 0 {
        0
    } else {
        size_prefix(attrs, n - 1) + attrs[n - 1].byte_size
    }
}

/// Byte size sums only grow as more attributes are counted.
pub proof fn lemma_size_prefix_monotonic(attrs: Seq<VertexAttributeSpec>, m: int, n: int)
    requires
        0 <= m <= n,
    ensures
        size_prefix(attrs, m) <= size_prefix(attrs, n),
    decreases n - m,
{
    if m < n {
        lemma_size_prefix_monotonic(attrs, m, n - 1);
    }
}

/// The first attribute sits at offset zero, and each later attribute's
/// offset is the previous attribute's offset plus the previous attribute's
/// byte size.
pub proof fn lemma_offsets_cumulative(attrs: Seq<VertexAttributeSpec>, i: int)
    requires
        1 <= i <= attrs.len(),
    ensures
        size_prefix(attrs, 0) == 0,
        size_prefix(attrs, i) == size_prefix(attrs, i - 1) + attrs[i - 1].byte_size,
{
}

/// Computes the layout of an interleaved vertex buffer whose per-vertex data
/// holds `attrs` in exactly the given order.
///
/// Each attribute is placed at the offset equal to the sum of the byte sizes
/// of the attributes before it, and bound to the shader location equal to its
/// index; the stride is the sum of all byte sizes. An empty attribute list is
/// a configuration error, rejected as [`LayoutError::EmptyVertexLayout`].
pub fn build_layout(attrs: &Vec<VertexAttributeSpec>) -> (r: Result<
    VertexBufferLayout,
    LayoutError,
>)
    requires
        size_prefix(attrs@, attrs@.len() as int) <= u64::MAX,
        attrs@.len() <= u32::MAX,
    ensures
        match r {
            Ok(layout) => {
                &&& attrs@.len() > 0
                &&& layout.attributes@.len() == attrs@.len()
                &&& forall|i: int|
                    0 <= i < attrs@.len() ==> (#[trigger] layout.attributes@[i]).attribute
                        == attrs@[i]
                &&& forall|i: int|
                    0 <= i < attrs@.len() ==> (#[trigger] layout.attributes@[i]).offset
                        == size_prefix(attrs@, i)
                &&& forall|i: int|
                    0 <= i < attrs@.len() ==> (#[trigger] layout.attributes@[i]).shader_location
                        == i
                &&& layout.stride == size_prefix(attrs@, attrs@.len() as int)
            },
            Err(e) => e == LayoutError::EmptyVertexLayout && attrs@.len() == 0,
        },
{
    if attrs.len() == 0 {
        return Err(LayoutError::EmptyVertexLayout);
    }
    let mut placed: Vec<PlacedVertexAttribute> = Vec::new();
    let mut cursor: u64 = 0;
    let mut i: usize = 0;
    while i < attrs.len()
        invariant
            size_prefix(attrs@, attrs@.len() as int) <= u64::MAX,
            attrs@.len() <= u32::MAX,
            0 <= i <= attrs@.len(),
            placed@.len() == i,
            cursor == size_prefix(attrs@, i as int),
            forall|j: int| 0 <= j < i ==> (#[trigger] placed@[j]).attribute == attrs@[j],
            forall|j: int| 0 <= j < i ==> (#[trigger] placed@[j]).offset == size_prefix(attrs@, j),
            forall|j: int| 0 <= j < i ==> (#[trigger] placed@[j]).shader_location == j,
        decreases attrs@.len() - i,
    {
        let a = attrs[i];
        proof {
            lemma_size_prefix_monotonic(attrs@, i + 1, attrs@.len() as int);
        }
        placed.push(
            PlacedVertexAttribute { attribute: a, offset: cursor, shader_location: i as u32 },
        );
        cursor = cursor + a.byte_size;
        i = i + 1;
    }
    Ok(VertexBufferLayout { attributes: placed, stride: cursor })
}

/// The attribute set this pipeline interleaves its vertex data with: color,
/// position, uv — kept in that fixed alphabetical order so that the producer
/// of the vertex data and the consuming shader agree on it.
pub open spec fn standard_attributes() -> Seq<VertexAttributeSpec> {
    seq![
        VertexAttributeSpec { name: VertexAttributeName::Color, component_count: 4, byte_size: 16 },
        VertexAttributeSpec {
            name: VertexAttributeName::Position,
            component_count: 3,
            byte_size: 12,
        },
        VertexAttributeSpec { name: VertexAttributeName::Uv, component_count: 2, byte_size: 8 },
    ]
}

/// The standard attribute list as a vector, for handing to [`build_layout`].
pub fn standard_vertex_attributes() -> (r: Vec<VertexAttributeSpec>)
    ensures
        r@ == standard_attributes(),
{
    let mut v: Vec<VertexAttributeSpec> = Vec::new();
    v.push(
        VertexAttributeSpec { name: VertexAttributeName::Color, component_count: 4, byte_size: 16 },
    );
    v.push(
        VertexAttributeSpec {
            name: VertexAttributeName::Position,
            component_count: 3,
            byte_size: 12,
        },
    );
    v.push(
        VertexAttributeSpec { name: VertexAttributeName::Uv, component_count: 2, byte_size: 8 },
    );
    proof {
        assert(v@ =~= standard_attributes());
    }
    v
}

/// The vertex buffer layout this pipeline hands to the host's pipeline
/// builder: the standard attributes (color at offset 0, position at 16, uv
/// at 28) with stride 36.
pub fn specialize() -> (r: VertexBufferLayout)
    ensures
        r.attributes@.len() == 3,
        r.attributes@[0].attribute == standard_attributes()[0],
        r.attributes@[1].attribute == standard_attributes()[1],
        r.attributes@[2].attribute == standard_attributes()[2],
        r.attributes@[0].offset == 0,
        r.attributes@[1].offset == 16,
        r.attributes@[2].offset == 28,
        r.attributes@[0].shader_location == 0,
        r.attributes@[1].shader_location == 1,
        r.attributes@[2].shader_location == 2,
        r.stride == 36,
{
    let attrs = standard_vertex_attributes();
    proof {
        reveal_with_fuel(size_prefix, 4);
        assert(size_prefix(standard_attributes(), 3) == 36);
    }
    match build_layout(&attrs) {
        Ok(layout) => layout,
        Err(_) => vstd::pervasive::unreached(),
    }
}

} // verus!
