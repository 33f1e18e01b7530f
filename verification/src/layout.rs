use vstd::prelude::*;

verus! {

/// The field types of the structs uploaded to the GPU: `f32` and `[f32; 2]`.
#[derive(Clone, Copy, Debug, PartialEq, Eq, Structural)]
pub enum FieldType {
    F32,
    F32x2,
}

/// Bytes taken by a field of type `t`.
pub open spec fn field_size(t: FieldType) -> int {
    match t {
        FieldType::F32 => 4,
        FieldType::F32x2 => 8,
    }
}

/// Alignment in bytes of a field of type `t` (that of `f32`).
pub open spec fn field_align(t: FieldType) -> int {
    4
}

/// The least multiple of `a` that is not below `x`.
pub open spec fn align_up(x: int, a: int) -> int {
    if x % a == 0 {
        x
    } else {
        x + (a - x % a)
    }
}

/// Where the last field of a `#[repr(C)]` struct with `fields` ends.
pub open spec fn fields_end(fields: Seq<FieldType>) -> int
    decreases fields.len(),
{
    if fields.len() == 0 {
        0
    } else {
        align_up(fields_end(fields.drop_last()), field_align(fields.last())) + field_size(
            fields.last(),
        )
    }
}

/// The offset of field `i` of a `#[repr(C)]` struct: the end of the fields before
/// it, rounded up to its alignment.
pub open spec fn field_offset(fields: Seq<FieldType>, i: int) -> int {
    align_up(fields_end(fields.take(i)), field_align(fields[i]))
}

/// The alignment of a `#[repr(C)]` struct: the largest alignment of its fields, 1 without fields.
pub open spec fn struct_align(fields: Seq<FieldType>) -> int
    decreases fields.len(),
{
    if fields.len() == 0 {
        1
    } else {
        let a = field_align(fields.last());
        let b = struct_align(fields.drop_last());
        if a > b {
            a
        } else {
            b
        }
    }
}

/// The size of a `#[repr(C)]` struct (what `std::mem::size_of` gives): the end of
/// its last field rounded up to the struct's alignment.
pub open spec fn struct_size(fields: Seq<FieldType>) -> int {
    align_up(fields_end(fields), struct_align(fields))
}

/// The byte offsets of the fields of a `#[repr(C)]` struct, and its size.
pub struct StructLayout {
    pub offsets: Vec<u64>,
    pub size: u64,
}

/// `align_up` keeps within `[x, x + a)` and lands on a multiple of `a`.
pub proof fn lemma_align_up(x: int, a: int)
    requires
        0 <= x,
        0 < a,
    ensures
        x <= align_up(x, a) < x + a,
        align_up(x, a) % a == 0,
{
    vstd::arithmetic::div_mod::lemma_fundamental_div_mod(x, a);
    vstd::arithmetic::div_mod::lemma_mod_pos_bound(x, a);
    if x % a != 0 {
        assert(align_up(x, a) == a * (x / a + 1)) by (nonlinear_arith)
            requires
                x == a * (x / a) + x % a,
                align_up(x, a) == x + (a - x % a),
        ;
        vstd::arithmetic::div_mod::lemma_mod_multiples_basic(x / a + 1, a);
        assert((x / a + 1) * a == a * (x / a + 1)) by (nonlinear_arith);
    }
}

/// The fields of these types end at a multiple of 4, at most 8 bytes per field.
proof fn lemma_fields_end_bound(fields: Seq<FieldType>)
    ensures
        fields_end(fields) % 4 == 0,
        0 <= fields_end(fields) <= 8 * fields.len(),
    decreases fields.len(),
{
    if fields.len() > 0 {
        lemma_fields_end_bound(fields.drop_last());
    }
}

/// The struct alignment of these field types is 4, or 1 without fields.
proof fn lemma_struct_align_value(fields: Seq<FieldType>)
    ensures
        struct_align(fields) == (if fields.len() == 0 { 1int } else { 4int }),
    decreases fields.len(),
{
    if fields.len() > 0 {
        lemma_struct_align_value(fields.drop_last());
    }
}

/// Bytes taken by a field of type `t`.
pub fn size_of_field(t: FieldType) -> (n: u64)
    ensures
        n == field_size(t),
{
    match t {
        FieldType::F32 => 4,
        FieldType::F32x2 => 8,
    }
}

/// Alignment of a field of type `t`.
pub fn align_of_field(t: FieldType) -> (n: u64)
    ensures
        n == field_align(t),
{
    4
}

/// Rounds `x` up to a multiple of `a`.
pub fn align_up_u64(x: u64, a: u64) -> (r: u64)
    requires
        a > 0,
        x + a <= u64::MAX,
    ensures
        r == align_up(x as int, a as int),
{
    let rem = x % a;
    if rem == 0 {
        x
    } else {
        x + (a - rem)
    }
}

/// Lays out a `#[repr(C)]` struct with `fields`: each field at the end of the
/// previous one rounded up to its alignment, the size rounded up to the
/// struct's alignment.
pub fn repr_c_layout(fields: &Vec<FieldType>) -> (layout: StructLayout)
    requires
        8 * fields@.len() + 8 <= u64::MAX,
    ensures
        layout.offsets@.len() == fields@.len(),
        forall|i: int| 0 <= i < fields@.len() ==> layout.offsets@[i] == field_offset(fields@, i),
        layout.size == struct_size(fields@),
{
    let n = fields.len();
    let mut offsets: Vec<u64> = Vec::new();
    let mut end: u64 = 0;
    let mut max_align: u64 = 1;
    let mut i: usize = 0;
    proof {
        assert(fields@.take(0) =~= Seq::<FieldType>::empty());
    }
    while i < n
        invariant
            n == fields@.len(),
            8 * n + 8 <= u64::MAX,
            0 <= i <= n,
            offsets@.len() == i,
            forall|j: int| 0 <= j < i ==> offsets@[j] == field_offset(fields@, j),
            end == fields_end(fields@.take(i as int)),
            max_align == struct_align(fields@.take(i as int)),
        decreases n - i,
    {
        proof {
            lemma_fields_end_bound(fields@.take(i as int));
            assert(fields@.take(i + 1).drop_last() =~= fields@.take(i as int));
            assert(fields@.take(i + 1).last() == fields@[i as int]);
        }
        let t = fields[i];
        let a = align_of_field(t);
        let off = align_up_u64(end, a);
        proof {
            lemma_align_up(end as int, a as int);
        }
        offsets.push(off);
        end = off + size_of_field(t);
        if a > max_align {
            max_align = a;
        }
        i = i + 1;
    }
    proof {
        assert(fields@.take(n as int) =~= fields@);
        lemma_fields_end_bound(fields@);
        lemma_struct_align_value(fields@);
    }
    let size = align_up_u64(end, max_align);
    StructLayout { offsets, size }
}


/// The end of the first `k + 1` fields is where field `k` starts plus its size.
proof fn lemma_end_after_field(fields: Seq<FieldType>, k: int)
    requires
        0 <= k < fields.len(),
    ensures
        fields_end(fields.take(k + 1)) == field_offset(fields, k) + field_size(fields[k]),
{
    assert(fields.take(k + 1).drop_last() =~= fields.take(k));
}

/// Ends of prefixes grow with the prefix.
proof fn lemma_end_monotone(fields: Seq<FieldType>, i: int, j: int)
    requires
        0 <= i <= j <= fields.len(),
    ensures
        fields_end(fields.take(i)) <= fields_end(fields.take(j)),
    decreases j - i,
{
    if i < j {
        lemma_end_monotone(fields, i, j - 1);
        lemma_end_after_field(fields, j - 1);
        lemma_fields_end_bound(fields.take(j - 1));
        lemma_align_up(fields_end(fields.take(j - 1)), field_align(fields[j - 1]));
    }
}

/// In a `#[repr(C)]` struct every field sits at a multiple of its alignment,
/// fields do not overlap and come in declaration order, every field lies
/// within the struct, and the size is a multiple of the struct's alignment.
pub proof fn lemma_repr_c_layout_sound(fields: Seq<FieldType>, i: int, j: int)
    requires
        0 <= i < j < fields.len(),
    ensures
        field_offset(fields, i) % field_align(fields[i]) == 0,
        field_offset(fields, i) + field_size(fields[i]) <= field_offset(fields, j),
        field_offset(fields, j) + field_size(fields[j]) <= struct_size(fields),
        struct_size(fields) % struct_align(fields) == 0,
{
    lemma_fields_end_bound(fields.take(i));
    lemma_align_up(fields_end(fields.take(i)), field_align(fields[i]));
    lemma_end_after_field(fields, i);
    lemma_end_monotone(fields, i + 1, j);
    lemma_fields_end_bound(fields.take(j));
    lemma_align_up(fields_end(fields.take(j)), field_align(fields[j]));
    lemma_end_after_field(fields, j);
    lemma_end_monotone(fields, j + 1, fields.len() as int);
    assert(fields.take(fields.len() as int) =~= fields);
    lemma_fields_end_bound(fields);
    lemma_struct_align_value(fields);
    lemma_align_up(fields_end(fields), struct_align(fields));
}

/// The formats that vertex attributes are read with.
#[derive(Clone, Copy, Debug, PartialEq, Eq, Structural)]
pub enum AttributeFormat {
    Float32,
    Float32x2,
}

/// Bytes read for an attribute of format `f`.
pub open spec fn format_size(f: AttributeFormat) -> int {
    match f {
        AttributeFormat::Float32 => 4,
        AttributeFormat::Float32x2 => 8,
    }
}

/// One attribute of a vertex buffer: read with `format` at `offset` within each
/// element, and handed to the shader at `shader_location`.
#[derive(Clone, Copy, Debug, PartialEq, Eq, Structural)]
pub struct VertexAttribute {
    pub format: AttributeFormat,
    pub offset: u64,
    pub shader_location: u32,
}

/// Whether a buffer advances per vertex or per instance.
#[derive(Clone, Copy, Debug, PartialEq, Eq, Structural)]
pub enum StepMode {
    Vertex,
    Instance,
}

/// How one vertex buffer is read: elements of `array_stride` bytes, each holding `attributes`.
pub struct VertexBufferLayout {
    pub array_stride: u64,
    pub step_mode: StepMode,
    pub attributes: Vec<VertexAttribute>,
}

/// An attribute lies within an element of `stride` bytes at a 4-byte boundary.
pub open spec fn attribute_fits(a: VertexAttribute, stride: int) -> bool {
    &&& a.offset % 4 == 0
    &&& a.offset + format_size(a.format) <= stride
}

/// Two attributes read disjoint bytes.
pub open spec fn attributes_disjoint(a: VertexAttribute, b: VertexAttribute) -> bool {
    a.offset + format_size(a.format) <= b.offset || b.offset + format_size(b.format) <= a.offset
}

/// The buffer layouts of a pipeline are consistent: strides are multiples of 4,
/// every attribute fits its element, the attributes of one buffer read disjoint
/// bytes, and no two attributes share a shader location.
pub open spec fn layouts_consistent(layouts: Seq<VertexBufferLayout>) -> bool {
    &&& forall|b: int| 0 <= b < layouts.len() ==> #[trigger] layouts[b].array_stride % 4 == 0
    &&& forall|b: int, k: int|
        0 <= b < layouts.len() && 0 <= k < layouts[b].attributes@.len() ==> attribute_fits(
            #[trigger] layouts[b].attributes@[k],
            layouts[b].array_stride as int,
        )
    &&& forall|b: int, k: int, m: int|
        0 <= b < layouts.len() && 0 <= k < m < layouts[b].attributes@.len() ==> attributes_disjoint(
            #[trigger] layouts[b].attributes@[k],
            #[trigger] layouts[b].attributes@[m],
        )
    &&& forall|b: int, k: int, c: int, m: int|
        0 <= b < layouts.len() && 0 <= k < layouts[b].attributes@.len() && 0 <= c < layouts.len()
            && 0 <= m < layouts[c].attributes@.len() && (b != c || k != m)
            ==> #[trigger] layouts[b].attributes@[k].shader_location
            != #[trigger] layouts[c].attributes@[m].shader_location
}

/// Attribute `k` reads exactly field `k` of a `#[repr(C)]` struct with `fields`.
pub open spec fn attributes_read_fields(attrs: Seq<VertexAttribute>, fields: Seq<FieldType>) -> bool {
    &&& attrs.len() <= fields.len()
    &&& forall|k: int|
        0 <= k < attrs.len() ==> #[trigger] attrs[k].offset == field_offset(fields, k)
            && format_size(attrs[k].format) == field_size(fields[k])
}

/// Appending a field of these types adds exactly its size: no padding is needed.
proof fn lemma_end_push(fields: Seq<FieldType>, t: FieldType)
    ensures
        fields_end(fields.push(t)) == fields_end(fields) + field_size(t),
{
    assert(fields.push(t).drop_last() =~= fields);
    lemma_fields_end_bound(fields);
}

/// A struct of these field types has no tail padding.
proof fn lemma_size_is_end(fields: Seq<FieldType>)
    requires
        fields.len() > 0,
    ensures
        struct_size(fields) == fields_end(fields),
{
    lemma_fields_end_bound(fields);
    lemma_struct_align_value(fields);
}

/// The fields of a quad corner: `corner: [f32; 2]`.
pub open spec fn vertex_field_types() -> Seq<FieldType> {
    seq![FieldType::F32x2]
}

/// The fields of a segment instance: `a: [f32; 2]`, `b: [f32; 2]`, `radius: f32`, `_pad: f32`.
pub open spec fn instance_field_types() -> Seq<FieldType> {
    seq![FieldType::F32x2, FieldType::F32x2, FieldType::F32, FieldType::F32]
}

/// The fields of the screen uniform: `size: [f32; 2]`, `_pad: [f32; 2]`.
pub open spec fn screen_uniform_field_types() -> Seq<FieldType> {
    seq![FieldType::F32x2, FieldType::F32x2]
}

/// The fields of a quad corner.
pub fn vertex_fields() -> (f: Vec<FieldType>)
    ensures
        f@ == vertex_field_types(),
        struct_size(f@) == 8,
        field_offset(f@, 0) == 0,
{
    let f = vec![FieldType::F32x2];
    proof {
        let e = Seq::<FieldType>::empty();
        lemma_end_push(e, FieldType::F32x2);
        assert(f@ =~= e.push(FieldType::F32x2));
        lemma_size_is_end(f@);
        assert(f@.take(0) =~= e);
    }
    f
}

/// The fields of a segment instance.
pub fn instance_fields() -> (f: Vec<FieldType>)
    ensures
        f@ == instance_field_types(),
        struct_size(f@) == 24,
        field_offset(f@, 0) == 0,
        field_offset(f@, 1) == 8,
        field_offset(f@, 2) == 16,
        field_offset(f@, 3) == 20,
{
    let f = vec![FieldType::F32x2, FieldType::F32x2, FieldType::F32, FieldType::F32];
    proof {
        let e = Seq::<FieldType>::empty();
        lemma_end_push(e, FieldType::F32x2);
        lemma_end_push(e.push(FieldType::F32x2), FieldType::F32x2);
        lemma_end_push(e.push(FieldType::F32x2).push(FieldType::F32x2), FieldType::F32);
        lemma_end_push(
            e.push(FieldType::F32x2).push(FieldType::F32x2).push(FieldType::F32),
            FieldType::F32,
        );
        assert(f@ =~= e.push(FieldType::F32x2).push(FieldType::F32x2).push(FieldType::F32).push(
            FieldType::F32,
        ));
        lemma_size_is_end(f@);
        lemma_instance_field_offsets();
    }
    f
}

/// The fields of the screen uniform; its size is a multiple of 16 bytes, as
/// uniform buffers need.
pub fn screen_uniform_fields() -> (f: Vec<FieldType>)
    ensures
        f@ == screen_uniform_field_types(),
        struct_size(f@) == 16,
        field_offset(f@, 0) == 0,
        field_offset(f@, 1) == 8,
{
    let f = vec![FieldType::F32x2, FieldType::F32x2];
    proof {
        let e = Seq::<FieldType>::empty();
        lemma_end_push(e, FieldType::F32x2);
        lemma_end_push(e.push(FieldType::F32x2), FieldType::F32x2);
        assert(f@ =~= e.push(FieldType::F32x2).push(FieldType::F32x2));
        lemma_size_is_end(f@);
        assert(f@.take(0) =~= e);
        assert(f@.take(1) =~= e.push(FieldType::F32x2));
    }
    f
}

/// Where the fields of a segment instance start: 0, 8, 16 and 20.
proof fn lemma_instance_field_offsets()
    ensures
        field_offset(instance_field_types(), 0) == 0,
        field_offset(instance_field_types(), 1) == 8,
        field_offset(instance_field_types(), 2) == 16,
        field_offset(instance_field_types(), 3) == 20,
{
    let f = instance_field_types();
    let e = Seq::<FieldType>::empty();
    lemma_end_push(e, FieldType::F32x2);
    lemma_end_push(e.push(FieldType::F32x2), FieldType::F32x2);
    lemma_end_push(e.push(FieldType::F32x2).push(FieldType::F32x2), FieldType::F32);
    assert(f.take(0) =~= e);
    assert(f.take(1) =~= e.push(FieldType::F32x2));
    assert(f.take(2) =~= e.push(FieldType::F32x2).push(FieldType::F32x2));
    assert(f.take(3) =~= e.push(FieldType::F32x2).push(FieldType::F32x2).push(FieldType::F32));
}

/// The only field of a quad corner starts at 0.
proof fn lemma_vertex_field_offsets()
    ensures
        field_offset(vertex_field_types(), 0) == 0,
{
    assert(vertex_field_types().take(0) =~= Seq::<FieldType>::empty());
}

/// The attribute read with `format` at `offset` for `shader_location`.
fn attribute(format: AttributeFormat, offset: u64, shader_location: u32) -> (a: VertexAttribute)
    ensures
        a == (VertexAttribute { format, offset, shader_location }),
{
    VertexAttribute { format, offset, shader_location }
}

/// The two vertex buffers of the line pipeline: the quad corners, one per
/// vertex, and the segments, one per instance. A corner is handed to the
/// shader at location 0; a segment's endpoints at 1 and 2 and its radius at 3,
/// its padding not at all. Each stride is the size of the struct uploaded.
pub fn vertex_buffer_layouts() -> (layouts: Vec<VertexBufferLayout>)
    ensures
        layouts@.len() == 2,
        layouts@[0].array_stride == struct_size(vertex_field_types()) == 8,
        layouts@[0].step_mode == StepMode::Vertex,
        layouts@[0].attributes@ == seq![
            VertexAttribute { format: AttributeFormat::Float32x2, offset: 0, shader_location: 0 },
        ],
        layouts@[1].array_stride == struct_size(instance_field_types()) == 24,
        layouts@[1].step_mode == StepMode::Instance,
        layouts@[1].attributes@ == seq![
            VertexAttribute { format: AttributeFormat::Float32x2, offset: 0, shader_location: 1 },
            VertexAttribute { format: AttributeFormat::Float32x2, offset: 8, shader_location: 2 },
            VertexAttribute { format: AttributeFormat::Float32, offset: 16, shader_location: 3 },
        ],
        layouts_consistent(layouts@),
        attributes_read_fields(layouts@[0].attributes@, vertex_field_types()),
        attributes_read_fields(layouts@[1].attributes@, instance_field_types()),
        forall|k: int|
            0 <= k < layouts@[1].attributes@.len() ==> #[trigger] layouts@[1].attributes@[k].offset
                + format_size(layouts@[1].attributes@[k].format) <= field_offset(
                instance_field_types(),
                3,
            ),
{
    let vertex_stride = repr_c_layout(&vertex_fields()).size;
    let instance_stride = repr_c_layout(&instance_fields()).size;
    let corner_attrs = vec![attribute(AttributeFormat::Float32x2, 0, 0)];
    let segment_attrs = vec![
        attribute(AttributeFormat::Float32x2, 0, 1),
        attribute(AttributeFormat::Float32x2, 8, 2),
        attribute(AttributeFormat::Float32, 16, 3),
    ];
    let layouts = vec![
        VertexBufferLayout {
            array_stride: vertex_stride,
            step_mode: StepMode::Vertex,
            attributes: corner_attrs,
        },
        VertexBufferLayout {
            array_stride: instance_stride,
            step_mode: StepMode::Instance,
            attributes: segment_attrs,
        },
    ];
    proof {
        lemma_instance_field_offsets();
        lemma_vertex_field_offsets();
        let ls = layouts@;
        assert(ls[0].attributes@.len() == 1);
        assert(ls[1].attributes@.len() == 3);
        assert forall|b: int, k: int, c: int, m: int|
            0 <= b < ls.len() && 0 <= k < ls[b].attributes@.len() && 0 <= c < ls.len() && 0 <= m
                < ls[c].attributes@.len() && (b != c || k != m) implies #[trigger] ls[b].attributes@[k].shader_location
            != #[trigger] ls[c].attributes@[m].shader_location by {
            assert(ls[b].attributes@[k].shader_location == (if b == 0 { 0 } else { k + 1 }));
            assert(ls[c].attributes@[m].shader_location == (if c == 0 { 0 } else { m + 1 }));
        }
    }
    layouts
}

} // verus!
