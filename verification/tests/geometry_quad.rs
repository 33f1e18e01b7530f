use line_sdf::geometry::{index_bytes, quad_corners, quad_indices, Corner};

fn little_endian() -> bool {
    1u16.to_ne_bytes()[0] == 1
}

#[test]
fn quad_corner_list() {
    assert_eq!(
        quad_corners(),
        vec![
            Corner { x: -1, y: -1 },
            Corner { x: 1, y: -1 },
            Corner { x: 1, y: 1 },
            Corner { x: -1, y: 1 },
        ]
    );
}

#[test]
fn quad_index_list() {
    assert_eq!(quad_indices(), vec![0u16, 1, 2, 2, 3, 0]);
}

#[test]
fn quad_triangles_counter_clockwise() {
    let c = quad_corners();
    let idx = quad_indices();
    let mut total = 0i32;
    for t in idx.chunks(3) {
        let (a, b, d) = (c[t[0] as usize], c[t[1] as usize], c[t[2] as usize]);
        let area = (b.x as i32 - a.x as i32) * (d.y as i32 - a.y as i32)
            - (b.y as i32 - a.y as i32) * (d.x as i32 - a.x as i32);
        assert!(area > 0);
        total += area;
    }
    assert_eq!(total, 8);
}

#[test]
fn index_bytes_native_order() {
    let bytes = index_bytes(&quad_indices());
    let expected: Vec<u8> = quad_indices().iter().flat_map(|i| i.to_ne_bytes()).collect();
    assert_eq!(bytes, expected);
    if little_endian() {
        assert_eq!(bytes, vec![0, 0, 1, 0, 2, 0, 2, 0, 3, 0, 0, 0]);
    }
}

#[test]
fn index_bytes_of_wide_values() {
    let bytes = index_bytes(&vec![0x0102u16, 0xfffe]);
    assert_eq!(bytes.len(), 4);
    if little_endian() {
        assert_eq!(bytes, vec![0x02, 0x01, 0xfe, 0xff]);
    } else {
        assert_eq!(bytes, vec![0x01, 0x02, 0xff, 0xfe]);
    }
    assert!(index_bytes(&vec![]).is_empty());
}
