use bfp_visualizer::VisError;
use bfp_visualizer::tape::{CellSize, TapeArr, Unsigned};

fn fresh(size: CellSize, count: usize) -> TapeArr {
    TapeArr::new(String::from("main"), size, count).unwrap()
}

#[test]
fn new_tape_is_zeroed_with_pointer_at_origin() {
    let t = fresh(CellSize::Byte, 8);
    assert_eq!(t.name, "main");
    assert_eq!(t.pointer, 0);
    assert_eq!(t.vec, vec![0u64; 8]);
}

#[test]
fn zero_cell_count_is_refused() {
    let r = TapeArr::new(String::from("main"), CellSize::Byte, 0);
    assert!(matches!(r, Err(VisError::ZeroCellCount)));
}

#[test]
fn increment_wraps_at_each_width() {
    let cases = [
        (CellSize::Byte, 0xFFu64),
        (CellSize::Word, 0xFFFF),
        (CellSize::Dword, 0xFFFF_FFFF),
        (CellSize::Qword, 0xFFFF_FFFF_FFFF_FFFF),
    ];
    for (size, max) in cases {
        let mut t = fresh(size, 1);
        t.decrement_cell(0);
        assert_eq!(t.vec[0], max, "decrement at zero wraps to the width's maximum");
        t.increment_cell(0);
        assert_eq!(t.vec[0], 0, "increment at the maximum wraps to zero");
    }
}

#[test]
fn increment_then_decrement_restores_every_width() {
    for size in [CellSize::Byte, CellSize::Word, CellSize::Dword, CellSize::Qword] {
        for start in [0u64, 1, 41] {
            let mut t = fresh(size, 2);
            for _ in 0..start {
                t.increment_cell(1);
            }
            assert_eq!(t.vec[1], start);
            t.increment_cell(1);
            t.decrement_cell(1);
            assert_eq!(t.vec[1], start);
            t.decrement_cell(1);
            t.increment_cell(1);
            assert_eq!(t.vec[1], start);
        }
    }
}

#[test]
fn a_full_cycle_of_increments_returns_to_the_original_value() {
    let mut t = fresh(CellSize::Byte, 1);
    for _ in 0..7 {
        t.increment_cell(0);
    }
    let original = t.vec[0];
    for _ in 0..256 {
        t.increment_cell(0);
    }
    assert_eq!(t.vec[0], original);

    let mut w = fresh(CellSize::Word, 1);
    for _ in 0..0x1_0000 {
        w.increment_cell(0);
    }
    assert_eq!(w.vec[0], 0);
}

#[test]
fn increment_touches_only_its_cell() {
    let mut t = fresh(CellSize::Byte, 4);
    t.increment_cell(2);
    t.increment_cell(2);
    assert_eq!(t.vec, vec![0, 0, 2, 0]);
}

#[test]
fn pointer_moves_stay_inside_the_tape() {
    let mut t = fresh(CellSize::Byte, 3);
    assert_eq!(t.move_pointer(-1), Err(VisError::OutOfRange));
    assert_eq!(t.pointer, 0);
    assert_eq!(t.move_pointer(2), Ok(()));
    assert_eq!(t.pointer, 2);
    assert_eq!(t.move_pointer(1), Err(VisError::OutOfRange));
    assert_eq!(t.pointer, 2);
    assert_eq!(t.move_pointer(-2), Ok(()));
    assert_eq!(t.pointer, 0);
    assert_eq!(t.move_pointer(i64::MIN), Err(VisError::OutOfRange));
    assert_eq!(t.pointer, 0);
    assert_eq!(t.move_pointer(i64::MAX), Err(VisError::OutOfRange));
    assert_eq!(t.pointer, 0);
}

#[test]
fn cell_widths_and_maxima_match_their_moduli() {
    assert_eq!(CellSize::Byte.bytes(), 1);
    assert_eq!(CellSize::Word.bytes(), 2);
    assert_eq!(CellSize::Dword.bytes(), 4);
    assert_eq!(CellSize::Qword.bytes(), 8);
    assert_eq!(CellSize::Byte.max_value(), 0xFF);
    assert_eq!(CellSize::Word.max_value(), 0xFFFF);
    assert_eq!(CellSize::Dword.max_value(), 0xFFFF_FFFF);
    assert_eq!(CellSize::Qword.max_value(), u64::MAX);
}

#[test]
fn print_returns_the_plain_value() {
    assert_eq!(200u8.print(), 200);
    assert_eq!(60_000u16.print(), 60_000);
    assert_eq!(4_000_000_000u32.print(), 4_000_000_000);
    assert_eq!(5_000_000_000u64.print(), 5_000_000_000);
    assert_eq!(7usize.print(), 7);
}
