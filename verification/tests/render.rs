use tiv::config::RenderMode;
use tiv::grid::{Rgb, TargetGrid};
use tiv::render::{color_image_ansi, render, FULL_BLOCK, LOWER_HALF_BLOCK};

fn grid(rows: usize, cols: usize) -> TargetGrid {
    let mut cells: Vec<Rgb> = Vec::new();
    for r in 0..rows {
        for c in 0..cols {
            cells.push(((r * 10) as u8, (c * 10) as u8, (r * cols + c) as u8));
        }
    }
    TargetGrid::from_shape_vec(rows, cols, cells).unwrap()
}

#[test]
fn full_cell_paints_the_foreground() {
    let g = TargetGrid::from_shape_vec(1, 1, vec![(255, 0, 7)]).unwrap();
    assert_eq!(render(&g, RenderMode::FullCell), "\x1b[38;2;255;0;7m\u{2588}\x1b[0m\n");
}

#[test]
fn half_block_paints_lower_on_upper() {
    let g = TargetGrid::from_shape_vec(2, 1, vec![(1, 20, 255), (100, 99, 9)]).unwrap();
    assert_eq!(
        color_image_ansi(&g),
        "\x1b[48;2;1;20;255;38;2;100;99;9m\u{2584}\x1b[0m\n"
    );
}

#[test]
fn half_block_text_of_a_four_by_two_grid() {
    let cells: Vec<Rgb> = vec![
        (0, 0, 0), (1, 1, 1),
        (2, 2, 2), (3, 3, 3),
        (4, 4, 4), (5, 5, 5),
        (6, 6, 6), (7, 7, 7),
    ];
    let g = TargetGrid::from_shape_vec(4, 2, cells).unwrap();
    let expected = "\x1b[48;2;0;0;0;38;2;2;2;2m\u{2584}\x1b[0m\
                    \x1b[48;2;1;1;1;38;2;3;3;3m\u{2584}\x1b[0m\n\
                    \x1b[48;2;4;4;4;38;2;6;6;6m\u{2584}\x1b[0m\
                    \x1b[48;2;5;5;5;38;2;7;7;7m\u{2584}\x1b[0m\n";
    assert_eq!(render(&g, RenderMode::HalfBlock), expected);
    assert_eq!(color_image_ansi(&g), expected);
}

#[test]
fn full_cell_text_of_a_two_by_two_grid() {
    let cells: Vec<Rgb> = vec![(10, 20, 30), (40, 50, 60), (70, 80, 90), (100, 110, 120)];
    let g = TargetGrid::from_shape_vec(2, 2, cells).unwrap();
    let expected = "\x1b[38;2;10;20;30m\u{2588}\x1b[0m\x1b[38;2;40;50;60m\u{2588}\x1b[0m\n\
                    \x1b[38;2;70;80;90m\u{2588}\x1b[0m\x1b[38;2;100;110;120m\u{2588}\x1b[0m\n";
    assert_eq!(render(&g, RenderMode::FullCell), expected);
}

#[test]
fn half_block_has_half_as_many_lines_each_as_wide_as_the_grid() {
    let text = color_image_ansi(&grid(6, 5));
    let lines: Vec<&str> = text.split_terminator('\n').collect();
    assert_eq!(lines.len(), 3);
    assert!(text.ends_with('\n'));
    for line in lines {
        assert_eq!(line.chars().filter(|c| *c == LOWER_HALF_BLOCK).count(), 5);
    }
}

#[test]
fn full_cell_has_as_many_lines_as_rows_each_as_wide_as_the_grid() {
    let text = render(&grid(6, 5), RenderMode::FullCell);
    let lines: Vec<&str> = text.split_terminator('\n').collect();
    assert_eq!(lines.len(), 6);
    for line in lines {
        assert_eq!(line.chars().filter(|c| *c == FULL_BLOCK).count(), 5);
    }
}

#[test]
fn a_last_odd_row_is_not_drawn() {
    let text = color_image_ansi(&grid(5, 2));
    assert_eq!(text.matches('\n').count(), 2);
    assert_eq!(text.matches(LOWER_HALF_BLOCK).count(), 4);
    assert_eq!(color_image_ansi(&grid(1, 4)), "");
}

#[test]
fn an_empty_grid_renders_to_nothing_but_newlines() {
    assert_eq!(color_image_ansi(&grid(0, 3)), "");
    assert_eq!(render(&grid(0, 3), RenderMode::FullCell), "");
    assert_eq!(render(&grid(3, 0), RenderMode::FullCell), "\n\n\n");
    assert_eq!(color_image_ansi(&grid(4, 0)), "\n\n");
}

#[test]
fn channels_are_written_in_decimal_without_padding() {
    let g = TargetGrid::from_shape_vec(1, 3, vec![(0, 9, 10), (99, 100, 101), (199, 200, 255)])
        .unwrap();
    assert_eq!(
        render(&g, RenderMode::FullCell),
        "\x1b[38;2;0;9;10m\u{2588}\x1b[0m\x1b[38;2;99;100;101m\u{2588}\x1b[0m\x1b[38;2;199;200;255m\u{2588}\x1b[0m\n"
    );
}

#[test]
fn every_byte_is_written_as_its_decimal() {
    for n in 0..=255u8 {
        let g = TargetGrid::from_shape_vec(2, 1, vec![(n, 0, n), (0, n, 0)]).unwrap();
        assert_eq!(
            color_image_ansi(&g),
            format!("\x1b[48;2;{};0;{};38;2;0;{};0m\u{2584}\x1b[0m\n", n, n, n)
        );
    }
}
