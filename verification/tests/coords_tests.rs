use chess_board::coords::{
    cell_in_bounds, cell_to_square, clamp_to_board, get_col, get_row, pixel_to_cell, probe_square,
    square_to_cell, target_square, BlackSide, BoardCellCoord,
};

#[test]
fn cell_under_a_pixel() {
    // Cells of 55 pixels: the playing area starts at 27.5 and ends at 467.5.
    assert_eq!(pixel_to_cell(0, 55), -1);
    assert_eq!(pixel_to_cell(27, 55), -1);
    assert_eq!(pixel_to_cell(28, 55), 0);
    assert_eq!(pixel_to_cell(82, 55), 0);
    assert_eq!(pixel_to_cell(83, 55), 1);
    assert_eq!(pixel_to_cell(250, 55), 4);
    assert_eq!(pixel_to_cell(467, 55), 7);
    assert_eq!(pixel_to_cell(468, 55), 8);
    assert_eq!(pixel_to_cell(1000, 55), 8);
}

#[test]
fn cell_under_a_pixel_is_the_floor_of_the_offset_quotient() {
    for cells in [1u32, 7, 50, 55, 100] {
        for pixel in -300..2000i32 {
            let floor = ((2 * pixel as i64 - cells as i64) as f64 / (2 * cells) as f64).floor();
            let expected = if floor < 0.0 {
                -1
            } else if floor > 7.0 {
                8
            } else {
                floor as i8
            };
            assert_eq!(pixel_to_cell(pixel, cells), expected, "pixel {} cells {}", pixel, cells);
        }
    }
}

#[test]
fn cell_under_a_pixel_left_of_the_widget() {
    assert_eq!(pixel_to_cell(-1, 55), -1);
    assert_eq!(pixel_to_cell(-28, 55), -1);
    assert_eq!(pixel_to_cell(-83, 55), -1);
    assert_eq!(pixel_to_cell(-26, 50), -1);
}

#[test]
fn cell_under_a_pixel_on_a_cell_boundary() {
    // Cells of 50 pixels: column 0 is [25, 75).
    assert_eq!(pixel_to_cell(24, 50), -1);
    assert_eq!(pixel_to_cell(25, 50), 0);
    assert_eq!(pixel_to_cell(74, 50), 0);
    assert_eq!(pixel_to_cell(75, 50), 1);
    assert_eq!(pixel_to_cell(424, 50), 7);
    assert_eq!(pixel_to_cell(425, 50), 8);
}

#[test]
fn cell_under_a_pixel_at_the_limits() {
    assert_eq!(pixel_to_cell(i32::MAX, 1), 8);
    assert_eq!(pixel_to_cell(i32::MIN, 1), -1);
    assert_eq!(pixel_to_cell(i32::MAX, u32::MAX), -1);
    assert_eq!(pixel_to_cell(i32::MIN, u32::MAX), -1);
    assert_eq!(pixel_to_cell(i32::MAX, 252645134), 8);
    assert_eq!(pixel_to_cell(i32::MAX, 252645135), 7);
}

#[test]
fn cells_without_extent_hold_no_pixel() {
    assert_eq!(pixel_to_cell(1, 0), 8);
    assert_eq!(pixel_to_cell(200, 0), 8);
    assert_eq!(pixel_to_cell(0, 0), 8);
    assert_eq!(pixel_to_cell(-5, 0), -1);
    assert_eq!(probe_square(3, 3, 0, BlackSide::BlackTop), None);
    assert_eq!(probe_square(0, 0, 0, BlackSide::BlackTop), None);
    assert_eq!(probe_square(-3, -3, 0, BlackSide::BlackTop), None);
    assert_eq!(
        target_square(3, -3, 0, BlackSide::BlackTop),
        BoardCellCoord { file: 7, rank: 7 }
    );
}

#[test]
fn square_and_cell_round_trip_in_both_orientations() {
    for side in [BlackSide::BlackTop, BlackSide::BlackBottom] {
        for file in 0..8u8 {
            for rank in 0..8u8 {
                let square = BoardCellCoord { file, rank };
                let (col, row) = square_to_cell(square, side);
                assert!(col <= 7 && row <= 7);
                assert_eq!(cell_to_square(col, row, side), square);
            }
        }
        for col in 0..8u8 {
            for row in 0..8u8 {
                let square = cell_to_square(col, row, side);
                assert_eq!(square_to_cell(square, side), (col, row));
            }
        }
    }
}

#[test]
fn pixel_inside_the_playing_area_round_trips_through_its_square() {
    let cells: u32 = 55;
    for side in [BlackSide::BlackTop, BlackSide::BlackBottom] {
        for x in 28..=467 {
            for y in [28, 100, 250, 300, 467] {
                let square = probe_square(x, y, cells, side).expect("inside the playing area");
                let (col, row) = square_to_cell(square, side);
                assert_eq!(col as i8, pixel_to_cell(x, cells));
                assert_eq!(row as i8, pixel_to_cell(y, cells));
                assert_eq!(cell_to_square(col, row, side), square);
                assert_eq!(target_square(x, y, cells, side), square);
                // The pixel lies within the cell as it is drawn.
                let left = 2 * (col as i64) * 55 + 55;
                assert!(left <= 2 * x as i64 && (2 * x as i64) < left + 110);
            }
        }
    }
}

#[test]
fn black_top_shows_a8_in_the_top_left_cell() {
    assert_eq!(
        cell_to_square(0, 0, BlackSide::BlackTop),
        BoardCellCoord { file: 0, rank: 7 }
    );
    assert_eq!(
        cell_to_square(7, 7, BlackSide::BlackTop),
        BoardCellCoord { file: 7, rank: 0 }
    );
    assert_eq!(
        cell_to_square(4, 6, BlackSide::BlackTop),
        BoardCellCoord { file: 4, rank: 1 }
    );
}

#[test]
fn black_bottom_shows_h1_in_the_top_left_cell() {
    assert_eq!(
        cell_to_square(0, 0, BlackSide::BlackBottom),
        BoardCellCoord { file: 7, rank: 0 }
    );
    assert_eq!(
        cell_to_square(7, 7, BlackSide::BlackBottom),
        BoardCellCoord { file: 0, rank: 7 }
    );
    assert_eq!(
        cell_to_square(3, 1, BlackSide::BlackBottom),
        BoardCellCoord { file: 4, rank: 1 }
    );
}

#[test]
fn toggling_twice_restores_the_mapping_of_every_square() {
    for side in [BlackSide::BlackTop, BlackSide::BlackBottom] {
        assert_ne!(side.toggled(), side);
        assert_eq!(side.toggled().toggled(), side);
        for col in 0..8u8 {
            for row in 0..8u8 {
                assert_eq!(
                    cell_to_square(col, row, side.toggled().toggled()),
                    cell_to_square(col, row, side)
                );
                let turned = cell_to_square(col, row, side.toggled());
                let before = cell_to_square(col, row, side);
                assert_eq!(turned.file, 7 - before.file);
                assert_eq!(turned.rank, 7 - before.rank);
            }
        }
    }
}

#[test]
fn probe_rejects_pixels_outside_the_playing_area() {
    let side = BlackSide::BlackTop;
    assert_eq!(probe_square(24, 100, 50, side), None);
    assert_eq!(probe_square(100, 24, 50, side), None);
    assert_eq!(probe_square(425, 100, 50, side), None);
    assert_eq!(probe_square(100, 425, 50, side), None);
    assert_eq!(probe_square(-10, -10, 50, side), None);
    assert_eq!(
        probe_square(25, 25, 50, side),
        Some(BoardCellCoord { file: 0, rank: 7 })
    );
    assert_eq!(
        probe_square(424, 424, 50, side),
        Some(BoardCellCoord { file: 7, rank: 0 })
    );
}

#[test]
fn target_is_clamped_to_the_nearest_border_square() {
    let top = BlackSide::BlackTop;
    assert_eq!(target_square(-100, 100, 50, top), BoardCellCoord { file: 0, rank: 6 });
    assert_eq!(target_square(1000, 100, 50, top), BoardCellCoord { file: 7, rank: 6 });
    assert_eq!(target_square(100, -100, 50, top), BoardCellCoord { file: 1, rank: 7 });
    assert_eq!(target_square(100, 1000, 50, top), BoardCellCoord { file: 1, rank: 0 });
    let bottom = BlackSide::BlackBottom;
    assert_eq!(target_square(-100, 100, 50, bottom), BoardCellCoord { file: 7, rank: 1 });
    assert_eq!(target_square(1000, 1000, 50, bottom), BoardCellCoord { file: 0, rank: 7 });
}

#[test]
fn bounds_and_clamping() {
    assert!(cell_in_bounds(0, 0));
    assert!(cell_in_bounds(7, 7));
    assert!(!cell_in_bounds(-1, 0));
    assert!(!cell_in_bounds(0, 8));
    assert!(!cell_in_bounds(8, 0));
    assert!(!cell_in_bounds(3, -1));
    assert_eq!(clamp_to_board(-5), 0);
    assert_eq!(clamp_to_board(0), 0);
    assert_eq!(clamp_to_board(5), 5);
    assert_eq!(clamp_to_board(7), 7);
    assert_eq!(clamp_to_board(8), 7);
    assert_eq!(clamp_to_board(i8::MAX), 7);
    assert_eq!(clamp_to_board(i8::MIN), 0);
}

#[test]
fn coordinates_outside_the_board_are_no_square() {
    assert_eq!(BoardCellCoord::new(4, 1), Some(BoardCellCoord { file: 4, rank: 1 }));
    assert_eq!(BoardCellCoord::new(7, 7), Some(BoardCellCoord { file: 7, rank: 7 }));
    assert_eq!(BoardCellCoord::new(8, 0), None);
    assert_eq!(BoardCellCoord::new(0, 8), None);
    assert_eq!(BoardCellCoord::new(255, 255), None);
    assert!(BoardCellCoord { file: 7, rank: 0 }.is_wf());
    assert!(!BoardCellCoord { file: 8, rank: 0 }.is_wf());
    assert_eq!(BoardCellCoord { file: 4, rank: 1 }.square_index(), 12);
    assert_eq!(BoardCellCoord { file: 7, rank: 7 }.square_index(), 63);
}

#[test]
fn columns_and_rows_of_the_text_lines() {
    assert_eq!(get_col(0, BlackSide::BlackTop), 0);
    assert_eq!(get_col(0, BlackSide::BlackBottom), 7);
    assert_eq!(get_col(5, BlackSide::BlackBottom), 2);
    assert_eq!(get_row(0, BlackSide::BlackTop), 0);
    assert_eq!(get_row(0, BlackSide::BlackBottom), 7);
    assert_eq!(get_row(6, BlackSide::BlackBottom), 1);
}
