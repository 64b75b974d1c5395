use chess::chess_errors::{try_error, ChessErrors};
use chess::chess_notation_utilities::{
    check_for_valid_notation, convert_col, convert_move_notation_to_indexes,
    convert_move_notation_to_xy, convert_row, get_bounds, index_to_spot, minus_one_col, neighbor,
    notation_to_index, plus_one_col, Direction, Point,
};

#[test]
fn columns_and_rows() {
    assert_eq!(convert_col("e2"), Ok(4));
    assert_eq!(convert_row("e2"), Ok(6));
    assert_eq!(convert_col("a8"), Ok(0));
    assert_eq!(convert_row("a8"), Ok(0));
    assert_eq!(convert_col("h1"), Ok(7));
    assert_eq!(convert_row("h1"), Ok(7));
    assert_eq!(convert_col("z2"), Err(ChessErrors::InvalidNotation));
    assert_eq!(convert_row("e9"), Err(ChessErrors::InvalidNotation));
    assert_eq!(convert_row("e"), Err(ChessErrors::InvalidNotation));
    assert_eq!(convert_col(""), Err(ChessErrors::InvalidNotation));
}

#[test]
fn spot_indexes() {
    assert_eq!(notation_to_index("a8"), Ok(0));
    assert_eq!(notation_to_index("h1"), Ok(63));
    assert_eq!(notation_to_index("e2"), Ok(52));
    assert_eq!(notation_to_index("e2x"), Ok(52));
    assert_eq!(notation_to_index("2e"), Err(ChessErrors::InvalidNotation));
    assert_eq!(convert_move_notation_to_indexes("e2", "e4"), Ok((52, 36)));
    assert_eq!(convert_move_notation_to_indexes("e2", "e0"), Err(ChessErrors::InvalidNotation));
    assert_eq!(
        convert_move_notation_to_xy("e2", "f4"),
        Ok((Point { x: 4, y: 6 }, Point { x: 5, y: 4 }))
    );
    assert_eq!(convert_move_notation_to_xy("k2", "f4"), Err(ChessErrors::InvalidNotation));
}

#[test]
fn every_square_round_trips() {
    assert_eq!(index_to_spot(52), "e2");
    assert_eq!(index_to_spot(0), "a8");
    assert_eq!(index_to_spot(63), "h1");
    for i in 0..64usize {
        let s = index_to_spot(i);
        assert_eq!(s.len(), 2);
        assert_eq!(notation_to_index(&s), Ok(i));
    }
    for f in ['a', 'b', 'c', 'd', 'e', 'f', 'g', 'h'] {
        for r in ['1', '2', '3', '4', '5', '6', '7', '8'] {
            let s: String = [f, r].iter().collect();
            assert_eq!(index_to_spot(notation_to_index(&s).unwrap()), s);
        }
    }
}

#[test]
fn valid_notation() {
    assert_eq!(check_for_valid_notation("e2"), Ok(true));
    assert_eq!(check_for_valid_notation("h8"), Ok(true));
    assert_eq!(check_for_valid_notation("i2"), Err(ChessErrors::InvalidNotation));
    assert_eq!(check_for_valid_notation("a0"), Err(ChessErrors::InvalidNotation));
    assert_eq!(check_for_valid_notation(""), Err(ChessErrors::InvalidNotation));
}

#[test]
fn neighbouring_files() {
    assert_eq!(minus_one_col('a'), None);
    assert_eq!(minus_one_col('b'), Some('a'));
    assert_eq!(minus_one_col('h'), Some('g'));
    assert_eq!(plus_one_col('h'), None);
    assert_eq!(plus_one_col('g'), Some('h'));
    assert_eq!(plus_one_col('z'), None);
}

#[test]
fn bounds_at_the_corner_and_centre() {
    let b = get_bounds("a1").unwrap();
    assert_eq!(b.top, Some(*b"a2"));
    assert_eq!(b.bottom, None);
    assert_eq!(b.left, None);
    assert_eq!(b.right, Some(*b"b1"));
    assert_eq!(b.top_right_diag, Some(*b"b2"));
    assert_eq!(b.top_left_diag, None);
    assert_eq!(b.bottom_left_diag, None);
    assert_eq!(b.bottom_right_diag, None);
    let b = get_bounds("e4").unwrap();
    assert_eq!(b.top, Some(*b"e5"));
    assert_eq!(b.bottom, Some(*b"e3"));
    assert_eq!(b.left, Some(*b"d4"));
    assert_eq!(b.right, Some(*b"f4"));
    assert_eq!(b.top_left_diag, Some(*b"d5"));
    assert_eq!(b.top_right_diag, Some(*b"f5"));
    assert_eq!(b.bottom_left_diag, Some(*b"d3"));
    assert_eq!(b.bottom_right_diag, Some(*b"f3"));
    let b = get_bounds("h8").unwrap();
    assert_eq!(b.top, None);
    assert_eq!(b.right, None);
    assert_eq!(b.bottom_left_diag, Some(*b"g7"));
    assert!(get_bounds("x9").is_err());
}

#[test]
fn single_steps() {
    assert_eq!(neighbor(0, Direction::Up), None);
    assert_eq!(neighbor(0, Direction::Down), Some(8));
    assert_eq!(neighbor(9, Direction::UpLeft), Some(0));
    assert_eq!(neighbor(7, Direction::Right), None);
    assert_eq!(neighbor(62, Direction::DownRight), None);
    assert_eq!(neighbor(54, Direction::DownRight), Some(63));
}

#[test]
fn errors_and_messages() {
    assert_eq!(try_error(7), Err(ChessErrors::InvalidNotation));
    assert_eq!(ChessErrors::NoPiece(52).message(), "no piece at e2");
    assert_eq!(ChessErrors::InvalidMove(28).message(), "piece cannot move to e5");
    assert_eq!(ChessErrors::InvalidNotation.message(), "invalid chess notation");
    assert_eq!(ChessErrors::PieceBetween(99).message(), "a piece of yours is in the way at ?");
}
