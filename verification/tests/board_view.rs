use sudoku_board::board::Board;
use sudoku_board::board_view::{
    convert_board_position_to_window_position, generate_board_string, BoardView, CANVAS, ROW_LENGTH,
};

#[test]
fn generate_string() {
    let mut board = Board::generate_empty();
    board.set_number(1).unwrap();
    board.set_pos(1, 3);
    board.set_number(3).unwrap();
    let board_view = BoardView::new(&board);
    let board_string = board_view.generate_string();
    assert_eq!(board_string, "\
        ╔═══╤═══╤═══╦═══╤═══╤═══╦═══╤═══╤═══╗\n\
        ║ 1 │   │   ║   │   │   ║   │   │   ║\n\
        ╟───┼───┼───╫───┼───┼───╫───┼───┼───╢\n\
        ║   │   │   ║ 3 │   │   ║   │   │   ║\n\
        ╟───┼───┼───╫───┼───┼───╫───┼───┼───╢\n\
        ║   │   │   ║   │   │   ║   │   │   ║\n\
        ╠═══╪═══╪═══╬═══╪═══╪═══╬═══╪═══╪═══╣\n\
        ║   │   │   ║   │   │   ║   │   │   ║\n\
        ╟───┼───┼───╫───┼───┼───╫───┼───┼───╢\n\
        ║   │   │   ║   │   │   ║   │   │   ║\n\
        ╟───┼───┼───╫───┼───┼───╫───┼───┼───╢\n\
        ║   │   │   ║   │   │   ║   │   │   ║\n\
        ╠═══╪═══╪═══╬═══╪═══╪═══╬═══╪═══╪═══╣\n\
        ║   │   │   ║   │   │   ║   │   │   ║\n\
        ╟───┼───┼───╫───┼───┼───╫───┼───┼───╢\n\
        ║   │   │   ║   │   │   ║   │   │   ║\n\
        ╟───┼───┼───╫───┼───┼───╫───┼───┼───╢\n\
        ║   │   │   ║   │   │   ║   │   │   ║\n\
        ╚═══╧═══╧═══╩═══╧═══╧═══╩═══╧═══╧═══╝");
}

#[test]
fn empty_board_is_drawn_as_the_bare_canvas() {
    let board = Board::generate_empty();
    assert_eq!(BoardView::new(&board).generate_string(), CANVAS);
    assert_eq!(generate_board_string(&board), "\
        ╔═══╤═══╤═══╦═══╤═══╤═══╦═══╤═══╤═══╗\n\
        ║   │   │   ║   │   │   ║   │   │   ║\n\
        ╟───┼───┼───╫───┼───┼───╫───┼───┼───╢\n\
        ║   │   │   ║   │   │   ║   │   │   ║\n\
        ╟───┼───┼───╫───┼───┼───╫───┼───┼───╢\n\
        ║   │   │   ║   │   │   ║   │   │   ║\n\
        ╠═══╪═══╪═══╬═══╪═══╪═══╬═══╪═══╪═══╣\n\
        ║   │   │   ║   │   │   ║   │   │   ║\n\
        ╟───┼───┼───╫───┼───┼───╫───┼───┼───╢\n\
        ║   │   │   ║   │   │   ║   │   │   ║\n\
        ╟───┼───┼───╫───┼───┼───╫───┼───┼───╢\n\
        ║   │   │   ║   │   │   ║   │   │   ║\n\
        ╠═══╪═══╪═══╬═══╪═══╪═══╬═══╪═══╪═══╣\n\
        ║   │   │   ║   │   │   ║   │   │   ║\n\
        ╟───┼───┼───╫───┼───┼───╫───┼───┼───╢\n\
        ║   │   │   ║   │   │   ║   │   │   ║\n\
        ╟───┼───┼───╫───┼───┼───╫───┼───┼───╢\n\
        ║   │   │   ║   │   │   ║   │   │   ║\n\
        ╚═══╧═══╧═══╩═══╧═══╧═══╩═══╧═══╧═══╝");
}

#[test]
fn starting_grid_is_drawn_with_all_its_digits() {
    let board = Board::generate();
    assert_eq!(generate_board_string(&board), "\
        ╔═══╤═══╤═══╦═══╤═══╤═══╦═══╤═══╤═══╗\n\
        ║ 5 │ 1 │ 3 ║ 6 │ 8 │ 7 ║ 2 │ 4 │ 9 ║\n\
        ╟───┼───┼───╫───┼───┼───╫───┼───┼───╢\n\
        ║ 8 │ 4 │ 9 ║ 5 │ 2 │ 1 ║ 6 │ 3 │ 7 ║\n\
        ╟───┼───┼───╫───┼───┼───╫───┼───┼───╢\n\
        ║ 2 │ 6 │ 7 ║ 3 │ 4 │ 9 ║   │ 8 │ 1 ║\n\
        ╠═══╪═══╪═══╬═══╪═══╪═══╬═══╪═══╪═══╣\n\
        ║ 1 │ 5 │ 8 ║ 4 │ 6 │ 3 ║ 9 │ 7 │ 2 ║\n\
        ╟───┼───┼───╫───┼───┼───╫───┼───┼───╢\n\
        ║ 9 │ 7 │ 4 ║ 2 │ 1 │ 8 ║ 3 │ 6 │ 5 ║\n\
        ╟───┼───┼───╫───┼───┼───╫───┼───┼───╢\n\
        ║ 3 │ 2 │ 6 ║ 7 │ 9 │ 5 ║ 4 │ 1 │ 8 ║\n\
        ╠═══╪═══╪═══╬═══╪═══╪═══╬═══╪═══╪═══╣\n\
        ║ 7 │ 8 │ 2 ║ 9 │ 3 │ 4 ║ 1 │ 5 │ 6 ║\n\
        ╟───┼───┼───╫───┼───┼───╫───┼───┼───╢\n\
        ║ 6 │ 3 │ 5 ║ 1 │ 7 │ 2 ║ 8 │ 9 │ 4 ║\n\
        ╟───┼───┼───╫───┼───┼───╫───┼───┼───╢\n\
        ║ 4 │ 9 │ 1 ║ 8 │ 5 │ 6 ║ 7 │ 2 │ 3 ║\n\
        ╚═══╧═══╧═══╩═══╧═══╧═══╩═══╧═══╧═══╝");
    assert_eq!(BoardView::new(&board).generate_string(), generate_board_string(&board));
}

#[test]
fn canvas_has_nineteen_lines_of_equal_length() {
    let chars: Vec<char> = CANVAS.chars().collect();
    assert_eq!(chars.len(), 721);
    assert_eq!(ROW_LENGTH, 38);
    let lines: Vec<&str> = CANVAS.split('\n').collect();
    assert_eq!(lines.len(), 19);
    for line in lines {
        assert_eq!(line.chars().count(), 37);
    }
}

#[test]
fn every_cell_is_drawn_where_the_cursor_goes() {
    for row in 0..9usize {
        for column in 0..9usize {
            let mut board = Board::generate_empty();
            board.set_pos(row, column);
            let digit = ((row * 9 + column) % 9) as u8 + 1;
            board.set_number(digit).unwrap();
            let at = convert_board_position_to_window_position(&board);
            assert_eq!(at.y, 2 * row as i32 + 1);
            assert_eq!(at.x, 4 * column as i32 + 2);
            let drawn: Vec<char> = generate_board_string(&board).chars().collect();
            let frame: Vec<char> = CANVAS.chars().collect();
            assert_eq!(drawn.len(), frame.len());
            let offset = at.y as usize * ROW_LENGTH + at.x as usize;
            for i in 0..drawn.len() {
                if i == offset {
                    assert_eq!(drawn[i], (b'0' + digit) as char);
                } else {
                    assert_eq!(drawn[i], frame[i]);
                }
            }
        }
    }
}

#[test]
fn window_position_of_the_cursor() {
    let mut board = Board::generate_empty();
    let at = convert_board_position_to_window_position(&board);
    assert_eq!((at.x, at.y), (2, 1));
    board.set_pos(4, 1);
    let at = convert_board_position_to_window_position(&board);
    assert_eq!((at.x, at.y), (6, 9));
    board.set_pos(8, 8);
    let at = convert_board_position_to_window_position(&board);
    assert_eq!((at.x, at.y), (34, 17));
}

#[test]
fn cleared_cell_is_drawn_as_a_space() {
    let mut board = Board::generate_empty();
    board.set_pos(5, 5);
    board.set_number(9).unwrap();
    assert_ne!(generate_board_string(&board), CANVAS);
    board.set_number(0).unwrap();
    assert_eq!(generate_board_string(&board), CANVAS);
}
