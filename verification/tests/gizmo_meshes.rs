use spaghetti_engine::gizmo_meshes::{cuboid_indices, cylinder_indices, pill_indices, sphere_indices};

#[test]
fn cuboid_faces_are_two_triangles_each() {
    let r = cuboid_indices();
    assert_eq!(&r[..12], &[0, 1, 2, 0, 2, 3, 4, 5, 6, 4, 6, 7]);
    assert_eq!(&r[30..], &[20, 21, 22, 20, 22, 23]);
    assert_eq!(r.len(), 36);
}

#[test]
fn cylinder_caps_fan_round_their_centres() {
    let s = 4u32;
    let r = cylinder_indices(s);
    assert_eq!(r.len(), 48);
    // bottom cap: centre 0, ring 1..=4
    assert_eq!(&r[..12], &[0, 2, 1, 0, 3, 2, 0, 4, 3, 0, 1, 4]);
    // top cap: centre 5, ring 6..=9
    assert_eq!(&r[12..24], &[5, 6, 7, 5, 7, 8, 5, 8, 9, 5, 9, 6]);
    // wall starts at vertex 10; the last segment wraps to the first
    assert_eq!(&r[24..30], &[10, 12, 11, 11, 12, 13]);
    assert_eq!(&r[42..48], &[16, 10, 17, 17, 10, 11]);
    assert!(cylinder_indices(0).is_empty());
}

fn sphere_by_hand(segments: u32, rings: u32) -> Vec<u32> {
    let segs = segments.max(3);
    let rings = rings.max(2);
    let row_stride = segs + 1;
    let mut indices = Vec::new();
    for ring in 0..rings {
        for seg in 0..segs {
            let i0 = ring * row_stride + seg;
            let i1 = i0 + 1;
            let i2 = (ring + 1) * row_stride + seg;
            let i3 = i2 + 1;
            indices.extend_from_slice(&[i0, i1, i2, i1, i3, i2]);
        }
    }
    indices
}

#[test]
fn sphere_cells_are_two_triangles_each() {
    for (s, r) in [(0, 0), (3, 2), (8, 5), (16, 1)] {
        assert_eq!(sphere_indices(s, r), sphere_by_hand(s, r));
    }
    assert_eq!(sphere_indices(1, 1).len(), 6 * 3 * 2);
}

fn pill_by_hand(segments: u32, rings: u32) -> Vec<u32> {
    let mut indices = Vec::new();
    for i in 0..segments {
        let base = 4 * i;
        indices.extend_from_slice(&[base, base + 1, base + 2, base, base + 2, base + 3]);
    }
    let mut vertex_count = 4 * segments;
    for bottom in [true, false] {
        let ring_base = vertex_count;
        vertex_count += (rings + 1) * (segments + 1);
        for ring in 0..rings {
            for seg in 0..segments {
                let i0 = ring * (segments + 1) + seg;
                let i1 = i0 + 1;
                let i2 = i0 + segments + 1;
                let i3 = i2 + 1;
                let b = ring_base;
                if bottom {
                    indices.extend_from_slice(&[b + i0, b + i2, b + i1, b + i1, b + i2, b + i3]);
                } else {
                    indices.extend_from_slice(&[b + i0, b + i1, b + i2, b + i1, b + i3, b + i2]);
                }
            }
        }
    }
    indices
}

#[test]
fn pill_wall_then_hemispheres() {
    for (s, r) in [(0, 0), (1, 1), (6, 3), (12, 4)] {
        assert_eq!(pill_indices(s, r), pill_by_hand(s, r));
    }
}
