use bfp_visualizer::input::{TapeCommand, apply_command};
use bfp_visualizer::layout::{Geometry, Primitive, draw_array, draw_tape_arr, draw_tapes};
use bfp_visualizer::tape::{CellSize, TapeArr};

fn geom() -> Geometry {
    Geometry { screen_width: 640, line_thickness: 5, cell_size: 50, font_size: 25 }
}

// One pixel is 10 * screen_width = 6400 units; the padding numerator is
// 640 - 2*5 = 630, so the cell pitch is 10 * 50 * 630 = 315_000 units
// (50 * 630/640 = 49.21875 px).

#[test]
fn cell_x_equals_origin_plus_n_s_p() {
    let values: Vec<u8> = vec![5, 2, 4, 3];
    let widths: Vec<u64> = vec![10, 10, 10, 12];
    let prims = draw_array(&values, &widths, &geom(), 0, 100);
    assert_eq!(prims.len(), 8);
    for n in 0..4usize {
        match prims[2 * n] {
            Primitive::RectOutline { x, y, side, thickness } => {
                assert_eq!(x, (n as i64) * 315_000);
                assert_eq!(y, 100 * 6400);
                assert_eq!(side, 50 * 6400);
                assert_eq!(thickness, 5 * 6400);
            }
            _ => panic!("even slots hold the cell squares"),
        }
    }
}

#[test]
fn cells_do_not_overlap() {
    let values: Vec<u8> = vec![0; 12];
    let widths: Vec<u64> = vec![7; 12];
    let prims = draw_array(&values, &widths, &geom(), -300, 0);
    let mut last_end: Option<i64> = None;
    for n in 0..12usize {
        match prims[2 * n] {
            Primitive::RectOutline { x, .. } => {
                if let Some(end) = last_end {
                    assert!(end <= x, "slot {} begins after slot {} ends", n, n - 1);
                }
                last_end = Some(x + 315_000);
            }
            _ => panic!("even slots hold the cell squares"),
        }
    }
}

#[test]
fn labels_are_centered_in_their_squares() {
    let values: Vec<u8> = vec![5, 200];
    let widths: Vec<u64> = vec![10, 30];
    let prims = draw_array(&values, &widths, &geom(), 0, 100);
    match prims[1] {
        Primitive::Text { x, y, font, value } => {
            // x = cell_x + 5 * 640 * (50 - 10); y = oy + 5 * 640 * (50 - 25)
            assert_eq!(x, 3200 * 40);
            assert_eq!(y, 100 * 6400 + 3200 * 25);
            assert_eq!(font, 25 * 6400);
            assert_eq!(value, 5);
        }
        _ => panic!("odd slots hold the labels"),
    }
    match prims[3] {
        Primitive::Text { x, value, .. } => {
            // A wider label shifts left of the square's middle.
            assert_eq!(x, 315_000 + 3200 * 20);
            assert_eq!(value, 200);
        }
        _ => panic!("odd slots hold the labels"),
    }
}

#[test]
fn marker_tracks_the_pointer_through_moves() {
    let g = geom();
    let mut tape = TapeArr::new(String::from("main"), CellSize::Byte, 3).unwrap();
    let widths: Vec<u64> = vec![7, 7, 7];

    let apex_of = |tape: &TapeArr| -> i64 {
        let prims = draw_tape_arr(tape, &widths, &g, 0, 0);
        assert_eq!(prims.len(), 7);
        match prims[6] {
            Primitive::Triangle { x3, .. } => x3,
            _ => panic!("the marker comes last"),
        }
    };

    // Center of cell 0: 0 + 5 * 640 * 50 = 160_000 units (25 px).
    assert_eq!(apex_of(&tape), 160_000);
    apply_command(&mut tape, TapeCommand::PointerRight).unwrap();
    assert_eq!(apex_of(&tape), 160_000 + 315_000);
    apply_command(&mut tape, TapeCommand::PointerRight).unwrap();
    assert_eq!(apex_of(&tape), 160_000 + 2 * 315_000);
    apply_command(&mut tape, TapeCommand::PointerLeft).unwrap();
    assert_eq!(apex_of(&tape), 160_000 + 315_000);
    // A refused move leaves the marker where it was.
    apply_command(&mut tape, TapeCommand::PointerRight).unwrap();
    assert!(apply_command(&mut tape, TapeCommand::PointerRight).is_err());
    assert_eq!(apex_of(&tape), 160_000 + 2 * 315_000);
}

#[test]
fn marker_triangle_points_up_from_below_the_row() {
    let tape = TapeArr::new(String::from("main"), CellSize::Byte, 3).unwrap();
    let widths: Vec<u64> = vec![7, 7, 7];
    let prims = draw_tape_arr(&tape, &widths, &geom(), 0, 0);
    match prims[6] {
        Primitive::Triangle { x1, y1, x2, y2, x3, y3 } => {
            // Apex 25 px right of the cell origin; reference line 75 px below
            // the row origin; offsets of 2*s/5 = 20 px = 128_000 units.
            assert_eq!((x3, y3), (160_000, 480_000 - 128_000));
            assert_eq!((x1, y1), (160_000 - 128_000, 480_000 + 128_000));
            assert_eq!((x2, y2), (160_000 + 128_000, 480_000 + 128_000));
        }
        _ => panic!("the marker comes last"),
    }
}

#[test]
fn tapes_stack_with_two_cell_sides_of_clearance() {
    let t0 = TapeArr::new(String::from("main"), CellSize::Byte, 2).unwrap();
    let t1 = TapeArr::new(String::from("aux"), CellSize::Word, 3).unwrap();
    let tapes = vec![t0, t1];
    let widths = vec![vec![7, 7], vec![7, 7, 7]];
    let rows = draw_tapes(&tapes, &widths, &geom(), 0, 40);
    assert_eq!(rows.len(), 2);
    assert_eq!(rows[0].len(), 5);
    assert_eq!(rows[1].len(), 7);
    match (rows[0][0], rows[1][0]) {
        (Primitive::RectOutline { y: y0, .. }, Primitive::RectOutline { y: y1, .. }) => {
            assert_eq!(y0, 40 * 6400);
            assert_eq!(y1, (40 + 2 * 50) * 6400);
        }
        _ => panic!("even slots hold the cell squares"),
    }
}
