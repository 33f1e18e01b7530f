use line_sdf::layout::{
    align_of_field, align_up_u64, instance_fields, repr_c_layout, screen_uniform_fields,
    size_of_field, vertex_buffer_layouts, vertex_fields, AttributeFormat, FieldType, StepMode,
    VertexAttribute,
};

#[test]
fn field_sizes_and_alignments() {
    assert_eq!(size_of_field(FieldType::F32), 4);
    assert_eq!(size_of_field(FieldType::F32x2), 8);
    assert_eq!(align_of_field(FieldType::F32), 4);
    assert_eq!(align_of_field(FieldType::F32x2), 4);
}

#[test]
fn align_up_rounds_to_multiple() {
    assert_eq!(align_up_u64(0, 4), 0);
    assert_eq!(align_up_u64(5, 4), 8);
    assert_eq!(align_up_u64(8, 4), 8);
    assert_eq!(align_up_u64(13, 16), 16);
    assert_eq!(align_up_u64(7, 1), 7);
}

#[test]
fn vertex_struct_layout() {
    let l = repr_c_layout(&vertex_fields());
    assert_eq!(l.offsets, vec![0]);
    assert_eq!(l.size, 8);
    assert_eq!(l.size as usize, std::mem::size_of::<[f32; 2]>());
}

#[test]
fn instance_struct_layout() {
    let l = repr_c_layout(&instance_fields());
    assert_eq!(l.offsets, vec![0, 8, 16, 20]);
    assert_eq!(l.size, 24);
    assert_eq!(l.size as usize, 2 * std::mem::size_of::<[f32; 2]>() + 2 * std::mem::size_of::<f32>());
}

#[test]
fn screen_uniform_layout() {
    let l = repr_c_layout(&screen_uniform_fields());
    assert_eq!(l.offsets, vec![0, 8]);
    assert_eq!(l.size, 16);
    assert_eq!(l.size % 16, 0);
}

#[test]
fn mixed_and_empty_layouts() {
    let l = repr_c_layout(&vec![FieldType::F32, FieldType::F32x2, FieldType::F32]);
    assert_eq!(l.offsets, vec![0, 4, 12]);
    assert_eq!(l.size, 16);
    let e = repr_c_layout(&vec![]);
    assert!(e.offsets.is_empty());
    assert_eq!(e.size, 0);
}

#[test]
fn pipeline_vertex_buffers() {
    let ls = vertex_buffer_layouts();
    assert_eq!(ls.len(), 2);
    assert_eq!(ls[0].array_stride, 8);
    assert_eq!(ls[0].step_mode, StepMode::Vertex);
    assert_eq!(
        ls[0].attributes,
        vec![VertexAttribute { format: AttributeFormat::Float32x2, offset: 0, shader_location: 0 }]
    );
    assert_eq!(ls[1].array_stride, 24);
    assert_eq!(ls[1].step_mode, StepMode::Instance);
    assert_eq!(
        ls[1].attributes,
        vec![
            VertexAttribute { format: AttributeFormat::Float32x2, offset: 0, shader_location: 1 },
            VertexAttribute { format: AttributeFormat::Float32x2, offset: 8, shader_location: 2 },
            VertexAttribute { format: AttributeFormat::Float32, offset: 16, shader_location: 3 },
        ]
    );
}

#[test]
fn pipeline_attributes_fit_and_do_not_collide() {
    let ls = vertex_buffer_layouts();
    let mut locations = Vec::new();
    for l in &ls {
        assert_eq!(l.array_stride % 4, 0);
        for a in &l.attributes {
            let size = match a.format {
                AttributeFormat::Float32 => 4,
                AttributeFormat::Float32x2 => 8,
            };
            assert_eq!(a.offset % 4, 0);
            assert!(a.offset + size <= l.array_stride);
            assert!(!locations.contains(&a.shader_location));
            locations.push(a.shader_location);
        }
    }
    // the instance padding (bytes 20..24) is read by no attribute
    for a in &ls[1].attributes {
        assert!(a.offset < 20);
    }
}
