//! Vertex layout descriptors: which attribute sits at which byte offset of a
//! vertex record, and how far apart consecutive records are.
use vstd::prelude::*;

verus! {

/// Numeric format of one vertex attribute, as the vertex shader reads it.
#[derive(Clone, Copy, Debug, PartialEq, Eq, Structural)]
pub enum VertexFormat {
    /// Two 32-bit floats.
    Float32x2,
    /// Three 32-bit floats.
    Float32x3,
}

/// Size in bytes of one attribute of format `f`.
pub open spec fn format_bytes(f: VertexFormat) -> nat {
    match f {
        VertexFormat::Float32x2 => 8,
        VertexFormat::Float32x3 => 12,
    }
}

impl VertexFormat {
    /// Size in bytes of one attribute of this format.
    pub fn size(&self) -> (r: u64)
        ensures
            r == format_bytes(*self),
    {
        match self {
            VertexFormat::Float32x2 => 8,
            VertexFormat::Float32x3 => 12,
        }
    }
}

/// One attribute of a vertex layout.
#[derive(Clone, Copy, Debug, PartialEq, Eq, Structural)]
pub struct VertexAttribute {
    pub shader_location: u32,
    pub format: VertexFormat,
    pub offset: u64,
}

/// The layout of one vertex buffer: record stride and attribute list.
#[derive(Clone, Debug)]
pub struct VertexLayout {
    pub array_stride: u64,
    pub attributes: Vec<VertexAttribute>,
}

/// Byte offset of field `n` in a record whose fields `fields` follow one
/// another with no gaps.
pub open spec fn packed_offset(fields: Seq<VertexFormat>, n: int) -> nat
    decreases n,
{
    if n <= 0 {
        0
    } else {
        packed_offset(fields, n - 1) + format_bytes(fields[n - 1])
    }
}

/// Size in bytes of a gap-free record made of `fields`.
pub open spec fn record_bytes(fields: Seq<VertexFormat>) -> nat {
    packed_offset(fields, fields.len() as int)
}

/// The attribute that describes field `i` of a gap-free record of `fields`.
pub open spec fn packed_attribute(fields: Seq<VertexFormat>, i: int) -> VertexAttribute {
    VertexAttribute {
        shader_location: i as u32,
        format: fields[i],
        offset: packed_offset(fields, i) as u64,
    }
}

/// `attrs` lists the fields of a gap-free record of `fields`, in order, at
/// shader locations 0, 1, ...
pub open spec fn packed_attributes(attrs: Seq<VertexAttribute>, fields: Seq<VertexFormat>) -> bool {
    &&& attrs.len() == fields.len()
    &&& forall|i: int| 0 <= i < fields.len() ==> #[trigger] attrs[i] == packed_attribute(fields, i)
}

/// `layout` describes exactly a gap-free record of `fields`.
pub open spec fn describes(layout: VertexLayout, fields: Seq<VertexFormat>) -> bool {
    &&& layout.array_stride == record_bytes(fields)
    &&& packed_attributes(layout.attributes@, fields)
}

/// An offset never exceeds twelve bytes per preceding field.
pub proof fn lemma_packed_offset_bound(fields: Seq<VertexFormat>, n: int)
    requires
        0 <= n <= fields.len(),
    ensures
        packed_offset(fields, n) <= 12 * n,
    decreases n,
{
    if n > 0 {
        lemma_packed_offset_bound(fields, n - 1);
    }
}

/// Attributes for the fields `fields`, at consecutive shader locations from 0
/// and at packed byte offsets.
pub fn attribute_array(fields: &Vec<VertexFormat>) -> (r: Vec<VertexAttribute>)
    requires
        fields@.len() <= u32::MAX,
    ensures
        packed_attributes(r@, fields@),
{
    let mut r: Vec<VertexAttribute> = Vec::new();
    let mut offset: u64 = 0;
    let mut i: usize = 0;
    while i < fields.len()
        invariant
            i <= fields@.len() <= u32::MAX,
            offset == packed_offset(fields@, i as int),
            packed_attributes(r@, fields@.take(i as int)),
            forall|j: int| 0 <= j < i ==> #[trigger] packed_offset(fields@.take(i as int), j)
                == packed_offset(fields@, j),
        decreases fields@.len() - i,
    {
        proof {
            lemma_packed_offset_bound(fields@, i as int);
            lemma_packed_offset_bound(fields@, i as int + 1);
            lemma_packed_prefix(fields@, i as int + 1);
        }
        let f = fields[i];
        r.push(VertexAttribute { shader_location: i as u32, format: f, offset });
        offset = offset + f.size();
        i = i + 1;
    }
    proof {
        assert(fields@.take(i as int) =~= fields@);
    }
    r
}

/// Offsets inside a prefix of the fields are those of the whole record.
proof fn lemma_packed_prefix(fields: Seq<VertexFormat>, k: int)
    requires
        0 <= k <= fields.len(),
    ensures
        forall|j: int| 0 <= j <= k ==> #[trigger] packed_offset(fields.take(k), j)
            == packed_offset(fields, j),
{
    assert forall|j: int| 0 <= j <= k implies #[trigger] packed_offset(fields.take(k), j)
        == packed_offset(fields, j) by {
        lemma_packed_prefix_at(fields, k, j);
    }
}

proof fn lemma_packed_prefix_at(fields: Seq<VertexFormat>, k: int, j: int)
    requires
        0 <= j <= k <= fields.len(),
    ensures
        packed_offset(fields.take(k), j) == packed_offset(fields, j),
    decreases j,
{
    if j > 0 {
        lemma_packed_prefix_at(fields, k, j - 1);
    }
}

/// The layout of a gap-free record made of `fields`.
pub fn layout_of(fields: &Vec<VertexFormat>) -> (r: VertexLayout)
    requires
        fields@.len() <= u32::MAX,
    ensures
        describes(r, fields@),
{
    let attributes = attribute_array(fields);
    let mut stride: u64 = 0;
    let mut i: usize = 0;
    while i < fields.len()
        invariant
            i <= fields@.len() <= u32::MAX,
            stride == packed_offset(fields@, i as int),
        decreases fields@.len() - i,
    {
        proof {
            lemma_packed_offset_bound(fields@, i as int + 1);
        }
        stride = stride + fields[i].size();
        i = i + 1;
    }
    VertexLayout { array_stride: stride, attributes }
}

/// The vertex records the renderer draws from.
#[derive(Clone, Copy, Debug, PartialEq, Eq, Structural)]
pub enum VertexShape {
    /// Position (three floats) followed by an RGB color (three floats).
    Color,
    /// Position (three floats) followed by texture coordinates (two floats).
    Texture,
}

/// Number of 32-bit floats in each field of a record, in declaration order.
pub open spec fn record_field_floats(shape: VertexShape) -> Seq<nat> {
    match shape {
        VertexShape::Color => seq![3, 3],
        VertexShape::Texture => seq![3, 2],
    }
}

/// Byte offset of field `i` of a record: the fields are arrays of 32-bit
/// floats laid out in declaration order, which leaves no padding.
pub open spec fn record_field_offset(shape: VertexShape, i: int) -> nat
    decreases i,
{
    if i <= 0 {
        0
    } else {
        record_field_offset(shape, i - 1) + 4 * record_field_floats(shape)[i - 1]
    }
}

/// Size in bytes of one record.
pub open spec fn record_size(shape: VertexShape) -> nat {
    record_field_offset(shape, record_field_floats(shape).len() as int)
}

/// The attribute formats that a shader reads from a record, in field order.
pub open spec fn shape_fields(shape: VertexShape) -> Seq<VertexFormat> {
    match shape {
        VertexShape::Color => seq![VertexFormat::Float32x3, VertexFormat::Float32x3],
        VertexShape::Texture => seq![VertexFormat::Float32x3, VertexFormat::Float32x2],
    }
}

/// The attribute formats of a record, in field order.
pub fn shape_formats(shape: VertexShape) -> (r: Vec<VertexFormat>)
    ensures
        r@ == shape_fields(shape),
{
    match shape {
        VertexShape::Color => {
            let r = vec![VertexFormat::Float32x3, VertexFormat::Float32x3];
            assert(r@ =~= shape_fields(shape));
            r
        },
        VertexShape::Texture => {
            let r = vec![VertexFormat::Float32x3, VertexFormat::Float32x2];
            assert(r@ =~= shape_fields(shape));
            r
        },
    }
}

/// The vertex buffer layout of records of `shape`.
pub fn vertex_layout(shape: VertexShape) -> (r: VertexLayout)
    ensures
        describes(r, shape_fields(shape)),
        r.array_stride == record_size(shape),
        forall|i: int|
            0 <= i < r.attributes@.len() ==> (#[trigger] r.attributes@[i]).offset
                == record_field_offset(shape, i),
{
    let fields = shape_formats(shape);
    let r = layout_of(&fields);
    proof {
        lemma_layout_matches_record(shape);
    }
    r
}

/// A layout built from a record's formats matches the record's own layout:
/// each attribute starts where its field starts, the fields follow one
/// another with no gaps, and the stride is the size of one record.
pub proof fn lemma_layout_matches_record(shape: VertexShape)
    ensures
        shape_fields(shape).len() == record_field_floats(shape).len(),
        record_bytes(shape_fields(shape)) == record_size(shape),
        forall|i: int|
            0 <= i <= shape_fields(shape).len() ==> #[trigger] packed_offset(shape_fields(shape), i)
                == record_field_offset(shape, i),
        forall|i: int|
            0 <= i < shape_fields(shape).len() ==> format_bytes(#[trigger] shape_fields(shape)[i])
                == 4 * record_field_floats(shape)[i],
{
    let fields = shape_fields(shape);
    reveal_with_fuel(packed_offset, 3);
    reveal_with_fuel(record_field_offset, 3);
    assert forall|i: int| 0 <= i <= fields.len() implies #[trigger] packed_offset(fields, i)
        == record_field_offset(shape, i) by {
        if i == 1 {
        } else if i == 2 {
        }
    }
}

} // verus!
