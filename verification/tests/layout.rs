use scene_registry::uniform::{
    next_multiple_of, UniformData, UniformField, UniformFieldType,
};

fn bits2(v: [f32; 2]) -> [u32; 2] {
    [v[0].to_bits(), v[1].to_bits()]
}

fn bits3(v: [f32; 3]) -> [u32; 3] {
    [v[0].to_bits(), v[1].to_bits(), v[2].to_bits()]
}

fn bits4(v: [f32; 4]) -> [u32; 4] {
    [v[0].to_bits(), v[1].to_bits(), v[2].to_bits(), v[3].to_bits()]
}

fn floats(bytes: &[u8]) -> Vec<f32> {
    assert_eq!(bytes.len() % 4, 0);
    bytes
        .chunks(4)
        .map(|lane| f32::from_ne_bytes([lane[0], lane[1], lane[2], lane[3]]))
        .collect()
}

#[test]
fn cast_pads_vec2_to_vec4_alignment() {
    let result = UniformData {
        fields: vec![
            UniformField::new_vec2("uv", bits2([1.0, 2.0])),
            UniformField::new_vec4("tint", bits4([3.0, 4.0, 5.0, 6.0])),
        ],
    }
    .cast();

    assert_eq!(floats(&result), &[1.0, 2.0, 0.0, 0.0, 3.0, 4.0, 5.0, 6.0]);
}

#[test]
fn cast_pads_vec2_to_rgb_alignment() {
    let result = UniformData {
        fields: vec![
            UniformField::new_vec2("uv", bits2([1.5, 2.5])),
            UniformField::new_rgb("color", bits3([0.1, 0.2, 0.3])),
        ],
    }
    .cast();

    assert_eq!(floats(&result), &[1.5, 2.5, 0.0, 0.0, 0.1, 0.2, 0.3, 0.0]);
}

#[test]
fn cast_no_padding_between_vec3_and_vec2() {
    let result = UniformData {
        fields: vec![
            UniformField::new_vec3("position", bits3([9.0, 8.0, 7.0])),
            UniformField::new_vec2("scale", bits2([0.25, 0.5])),
        ],
    }
    .cast();

    assert_eq!(floats(&result), &[9.0, 8.0, 7.0, 0.0, 0.25, 0.5, 0.0, 0.0]);
}

#[test]
fn uniform_cast_pads_vec2_to_vec4_alignment() {
    let data = UniformData {
        fields: vec![
            UniformField::new_vec2("uv", bits2([1.0, 2.0])),
            UniformField::new_vec4("tint", bits4([3.0, 4.0, 5.0, 6.0])),
        ],
    };
    let result = data.cast();
    let result: &[f32] = &bytemuck::pod_collect_to_vec::<u8, f32>(&result);
    assert_eq!(result, &[1.0, 2.0, 0.0, 0.0, 3.0, 4.0, 5.0, 6.0]);
    assert_eq!(data.layout(), (32, 16));
}

#[test]
fn uniform_cast_pads_vec2_to_rgb_alignment() {
    let data = UniformData {
        fields: vec![
            UniformField::new_vec2("uv", bits2([1.5, 2.5])),
            UniformField::new_rgb("color", bits3([0.1, 0.2, 0.3])),
        ],
    };
    let result = data.cast();
    let result: &[f32] = &bytemuck::pod_collect_to_vec::<u8, f32>(&result);
    assert_eq!(result, &[1.5, 2.5, 0.0, 0.0, 0.1, 0.2, 0.3, 0.0]);
    assert_eq!(data.layout(), (32, 16));
}

#[test]
fn uniform_cast_no_padding_between_vec3_and_vec2() {
    let data = UniformData {
        fields: vec![
            UniformField::new_vec3("position", bits3([9.0, 8.0, 7.0])),
            UniformField::new_vec2("scale", bits2([0.25, 0.5])),
        ],
    };
    let result = data.cast();
    let result: &[f32] = &bytemuck::pod_collect_to_vec::<u8, f32>(&result);
    assert_eq!(result, &[9.0, 8.0, 7.0, 0.0, 0.25, 0.5, 0.0, 0.0]);
    assert_eq!(data.layout(), (32, 16));
}

#[test]
fn cast_of_no_fields_is_empty() {
    let data = UniformData { fields: vec![] };
    assert_eq!(data.cast(), Vec::<u8>::new());
    assert_eq!(data.layout(), (0, 1));
}

#[test]
fn cast_of_a_single_vec2_is_eight_bytes() {
    let data = UniformData {
        fields: vec![UniformField::new_vec2("uv", bits2([1.0, -2.0]))],
    };
    let bytes = data.cast();
    assert_eq!(bytes.len(), 8);
    assert_eq!(floats(&bytes), &[1.0, -2.0]);
    assert_eq!(data.layout(), (8, 8));
}

#[test]
fn cast_writes_lanes_in_native_byte_order() {
    let lane: u32 = 0x0403_0201;
    let data = UniformData {
        fields: vec![UniformField::new_vec2("uv", [lane, 0xA0B0_C0D0])],
    };
    let bytes = data.cast();
    assert_eq!(&bytes[0..4], &lane.to_ne_bytes());
    assert_eq!(&bytes[4..8], &0xA0B0_C0D0u32.to_ne_bytes());
}

#[test]
fn cast_stores_a_matrix_row_after_row() {
    let rows = [
        [1.0f32, 2.0, 3.0, 4.0],
        [5.0, 6.0, 7.0, 8.0],
        [9.0, 10.0, 11.0, 12.0],
        [13.0, 14.0, 15.0, 16.0],
    ];
    let data = UniformData {
        fields: vec![UniformField::new_mat4(
            "model",
            [bits4(rows[0]), bits4(rows[1]), bits4(rows[2]), bits4(rows[3])],
        )],
    };
    let bytes = data.cast();
    assert_eq!(bytes.len(), 64);
    let expected: Vec<f32> = (1..=16).map(|x| x as f32).collect();
    assert_eq!(floats(&bytes), expected);
    assert_eq!(data.layout(), (64, 16));
}

#[test]
fn cast_pads_the_end_to_the_largest_alignment() {
    let data = UniformData {
        fields: vec![
            UniformField::new_rgba("tint", bits4([1.0, 2.0, 3.0, 4.0])),
            UniformField::new_vec2("uv", bits2([5.0, 6.0])),
        ],
    };
    let bytes = data.cast();
    assert_eq!(floats(&bytes), &[1.0, 2.0, 3.0, 4.0, 5.0, 6.0, 0.0, 0.0]);
    assert_eq!(bytes.len() % 16, 0);
}

#[test]
fn cast_is_the_same_on_every_call() {
    let data = UniformData {
        fields: vec![
            UniformField::new_vec2("uv", bits2([1.0, 2.0])),
            UniformField::new_mat4("m", [bits4([1.0, 0.0, 0.0, 0.0]); 4]),
            UniformField::new_vec3("p", bits3([0.5, 0.25, 0.125])),
        ],
    };
    let first = data.cast();
    let second = data.cast();
    assert_eq!(first, second);
    assert_eq!(first.len(), 96);
    assert_eq!(first.len() % 16, 0);
}

#[test]
fn field_layout_follows_the_table() {
    assert_eq!(UniformFieldType::Vec2f([0; 2]).layout(), (8, 8));
    assert_eq!(UniformFieldType::Vec3f([0; 3]).layout(), (16, 16));
    assert_eq!(UniformFieldType::Rgb([0; 3]).layout(), (16, 16));
    assert_eq!(UniformFieldType::Vec4f([0; 4]).layout(), (16, 16));
    assert_eq!(UniformFieldType::Rgba([0; 4]).layout(), (16, 16));
    assert_eq!(UniformFieldType::Mat4x4f([[0; 4]; 4]).layout(), (16, 64));
}

#[test]
fn write_to_appends_the_bytes_of_the_field() {
    let mut buf = vec![0xFFu8];
    UniformFieldType::Vec3f(bits3([1.0, 2.0, 3.0])).write_to(&mut buf);
    assert_eq!(buf.len(), 17);
    assert_eq!(buf[0], 0xFF);
    assert_eq!(floats(&buf[1..]), &[1.0, 2.0, 3.0, 0.0]);
}

#[test]
fn next_multiple_of_rounds_up() {
    assert_eq!(next_multiple_of(0, 16), 0);
    assert_eq!(next_multiple_of(1, 16), 16);
    assert_eq!(next_multiple_of(16, 16), 16);
    assert_eq!(next_multiple_of(17, 8), 24);
    assert_eq!(next_multiple_of(24, 8), 24);
}
