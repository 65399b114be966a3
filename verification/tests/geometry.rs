use tetrotime::tetromino::{fill_rects, probe_cells, FillRect, Rotation, Shape};

fn all_shapes() -> Vec<Shape> {
    vec![Shape::L, Shape::J, Shape::O, Shape::T, Shape::I, Shape::S, Shape::Z]
}

fn all_rotations() -> Vec<Rotation> {
    vec![Rotation::NoRotation, Rotation::Degrees90, Rotation::Degrees180, Rotation::Degrees270]
}

#[test]
fn probe_and_fill_tables_nonempty_and_deterministic() {
    for &shape in all_shapes().iter() {
        for &rotation in all_rotations().iter() {
            let cells1 = probe_cells(shape, rotation);
            let cells2 = probe_cells(shape, rotation);
            assert!(!cells1.is_empty());
            assert_eq!(cells1, cells2);
            let rects1 = fill_rects(shape, rotation);
            let rects2 = fill_rects(shape, rotation);
            assert!(!rects1.is_empty());
            assert_eq!(rects1, rects2);
        }
    }
}

#[test]
fn probe_cells_match_authored_layout() {
    assert_eq!(probe_cells(Shape::L, Rotation::NoRotation), vec![(0, 0), (1, -1), (2, -1)]);
    assert_eq!(probe_cells(Shape::J, Rotation::Degrees270), vec![(0, 0), (1, -2)]);
    assert_eq!(
        probe_cells(Shape::I, Rotation::NoRotation),
        vec![(0, 0), (1, 0), (2, 0), (3, 0)]
    );
    assert_eq!(probe_cells(Shape::I, Rotation::Degrees90), vec![(0, 0)]);
    assert_eq!(probe_cells(Shape::Z, Rotation::Degrees180), vec![(0, 0), (1, 0), (-1, -1)]);
}

#[test]
fn fill_rects_match_authored_layout() {
    assert_eq!(
        fill_rects(Shape::O, Rotation::NoRotation),
        vec![FillRect { dx: 0, dy: -2, w: 2, h: 2 }]
    );
    assert_eq!(
        fill_rects(Shape::I, Rotation::Degrees270),
        vec![FillRect { dx: 0, dy: -4, w: 1, h: 4 }]
    );
    assert_eq!(
        fill_rects(Shape::T, Rotation::NoRotation),
        vec![
            FillRect { dx: -1, dy: -2, w: 3, h: 1 },
            FillRect { dx: 0, dy: -1, w: 1, h: 1 },
        ]
    );
}

#[test]
fn square_footprint_ignores_rotation() {
    let base_cells = probe_cells(Shape::O, Rotation::NoRotation);
    let base_rects = fill_rects(Shape::O, Rotation::NoRotation);
    for &rotation in all_rotations().iter() {
        assert_eq!(probe_cells(Shape::O, rotation), base_cells);
        assert_eq!(fill_rects(Shape::O, rotation), base_rects);
    }
}
