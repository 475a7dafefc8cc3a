use fungui::geometry::{axis_aligned_quad, nine_patch_quads, quad_from_corners, NinePatchGrid};

#[test]
fn axis_aligned_quad_emits_corners_in_winding_order() {
    let q = axis_aligned_quad((1.0f32, 2.0, 11.0, 22.0), (0.0, 0.25, 0.5, 1.0), (9, 8, 7, 6), 0.5);
    assert_eq!(q.len(), 6);
    let positions: Vec<(f32, f32, f32)> = q.iter().map(|v| v.0).collect();
    assert_eq!(
        positions,
        vec![
            (1.0, 2.0, 0.5),
            (11.0, 2.0, 0.5),
            (11.0, 22.0, 0.5),
            (1.0, 2.0, 0.5),
            (11.0, 22.0, 0.5),
            (1.0, 22.0, 0.5),
        ]
    );
    let texcoords: Vec<(f32, f32)> = q.iter().map(|v| v.1).collect();
    assert_eq!(
        texcoords,
        vec![(0.0, 0.25), (0.5, 0.25), (0.5, 1.0), (0.0, 0.25), (0.5, 1.0), (0.0, 1.0)]
    );
    assert!(q.iter().all(|v| v.2 == (9, 8, 7, 6)));
}

#[test]
fn unmoved_corners_give_the_axis_aligned_quad() {
    let a = axis_aligned_quad((0.0f32, 0.0, 10.0, 5.0), (0.0, 0.0, 1.0, 1.0), (255, 0, 0, 255), -0.25);
    let b = quad_from_corners(
        (0.0f32, 0.0),
        (10.0, 0.0),
        (10.0, 5.0),
        (0.0, 5.0),
        (0.0, 0.0, 1.0, 1.0),
        (255, 0, 0, 255),
        -0.25,
    );
    assert_eq!(a, b);
}

#[test]
fn rotated_corners_keep_texcoords_and_centroid() {
    let (x0, y0, x1, y1) = (0.0f32, 0.0, 10.0, 10.0);
    let (cx, cy) = ((x0 + x1) * 0.5, (y0 + y1) * 0.5);
    let (s, c) = (1.0f32).sin_cos();
    let rot = |x: f32, y: f32| (cx + (x - cx) * c - (y - cy) * s, cy + (x - cx) * s + (y - cy) * c);
    let q = quad_from_corners(rot(x0, y0), rot(x1, y0), rot(x1, y1), rot(x0, y1), (0.0, 0.0, 1.0, 1.0), (1, 2, 3, 4), 0.0);
    let corners = [q[0].0, q[1].0, q[2].0, q[5].0];
    let mx: f32 = corners.iter().map(|p| p.0).sum::<f32>() / 4.0;
    let my: f32 = corners.iter().map(|p| p.1).sum::<f32>() / 4.0;
    assert!((mx - cx).abs() < 1e-4 && (my - cy).abs() < 1e-4);
    assert_eq!(q[2].1, (1.0, 1.0));
    assert_eq!(q[5].1, (0.0, 1.0));
}

fn grid() -> NinePatchGrid<f32> {
    NinePatchGrid {
        xs: [0.0, 4.0, 96.0, 100.0],
        ys: [10.0, 18.0, 42.0, 50.0],
        txs: [0.0, 0.25, 0.75, 1.0],
        tys: [0.0, 0.5, 0.5, 1.0],
    }
}

#[test]
fn nine_patch_emits_nine_quads() {
    let quads = nine_patch_quads(&grid(), (1, 1, 1, 1), 0.0);
    assert_eq!(quads.len(), 9);
    assert_eq!(quads.iter().map(|q| q.len()).sum::<usize>(), 54);
}

#[test]
fn nine_patch_cells_tile_the_rectangle() {
    let g = grid();
    let quads = nine_patch_quads(&g, (1, 1, 1, 1), 0.0);
    let mut area = 0.0f32;
    for (k, q) in quads.iter().enumerate() {
        let (col, row) = (k % 3, k / 3);
        assert_eq!((q[0].0 .0, q[0].0 .1), (g.xs[col], g.ys[row]));
        assert_eq!((q[2].0 .0, q[2].0 .1), (g.xs[col + 1], g.ys[row + 1]));
        assert_eq!((q[0].1, q[2].1), ((g.txs[col], g.tys[row]), (g.txs[col + 1], g.tys[row + 1])));
        area += (q[2].0 .0 - q[0].0 .0) * (q[2].0 .1 - q[0].0 .1);
    }
    assert_eq!(area, 100.0 * 40.0);
    for py in [10.0f32, 17.9, 18.0, 41.0, 49.9] {
        for px in [0.0f32, 3.9, 4.0, 50.0, 96.0, 99.9] {
            let hits = quads
                .iter()
                .filter(|q| q[0].0 .0 <= px && px < q[2].0 .0 && q[0].0 .1 <= py && py < q[2].0 .1)
                .count();
            assert_eq!(hits, 1);
        }
    }
}

#[test]
fn nine_patch_degenerate_margins_give_empty_cells() {
    let g = NinePatchGrid {
        xs: [0.0f32, 10.0, 10.0, 10.0],
        ys: [0.0, 10.0, 10.0, 10.0],
        txs: [0.0, 0.5, 0.5, 1.0],
        tys: [0.0, 0.5, 0.5, 1.0],
    };
    let quads = nine_patch_quads(&g, (0, 0, 0, 0), 1.0);
    assert_eq!(quads.len(), 9);
    assert_eq!(quads[8][0].0, (10.0, 10.0, 1.0));
    assert_eq!(quads[8][2].0, (10.0, 10.0, 1.0));
}
