use vstd::prelude::*;
use vstd::string::*;

use crate::chess_errors::ChessErrors;
use vstd::arithmetic::div_mod::lemma_fundamental_div_mod_converse;

verus! {

/// Column (file `a`..`h` as 0..7) that a file letter names.
pub open spec fn col_of_char(c: char) -> Option<int> {
    if 'a' <= c && c <= 'h' {
        Some(c as int - 'a' as int)
    } else {
        None
    }
}

/// Row (rank 8 as 0 .. rank 1 as 7) that a rank digit names.
pub open spec fn row_of_char(c: char) -> Option<int> {
    if '1' <= c && c <= '8' {
        Some('8' as int - c as int)
    } else {
        None
    }
}

pub open spec fn sq_col(i: int) -> int {
    i % 8
}

pub open spec fn sq_row(i: int) -> int {
    i / 8
}

pub open spec fn file_char(col: int) -> char {
    ('a' as int + col) as char
}

pub open spec fn rank_char(row: int) -> char {
    ('8' as int - row) as char
}

/// Column named by the first character of a spot, if it is `a`..`h`.
pub open spec fn spot_col(s: Seq<char>) -> Option<int> {
    if s.len() >= 1 {
        col_of_char(s[0])
    } else {
        None
    }
}

/// Row named by the second character of a spot, if it is `1`..`8`.
pub open spec fn spot_row(s: Seq<char>) -> Option<int> {
    if s.len() >= 2 {
        row_of_char(s[1])
    } else {
        None
    }
}

/// Only the first two characters of a spot are read.
pub open spec fn is_spot(s: Seq<char>) -> bool {
    spot_col(s) is Some && spot_row(s) is Some
}

/// Board index of a spot: row * 8 + column.
pub open spec fn spot_index(s: Seq<char>) -> int {
    spot_row(s)->0 * 8 + spot_col(s)->0
}

/// The two-character name of board index `i`.
pub open spec fn spot_text(i: int) -> Seq<char> {
    seq![file_char(sq_col(i)), rank_char(sq_row(i))]
}

pub fn index_to_spot(index: usize) -> (r: String)
    requires
        index < 64,
    ensures
        r@ == spot_text(index as int),
{
    let files = "abcdefgh";
    let ranks = "87654321";
    proof {
        reveal_strlit("abcdefgh");
        reveal_strlit("87654321");
    }
    let c = index % 8;
    let rw = index / 8;
    let s = String::from_str(files.substring_char(c, c + 1));
    let r = s.concat(ranks.substring_char(rw, rw + 1));
    assert(r@ =~= spot_text(index as int));
    r
}

pub fn convert_col(spot: &str) -> (r: Result<usize, ChessErrors>)
    ensures
        r == (match spot_col(spot@) {
            Some(c) => Ok(c as usize),
            None => Err(ChessErrors::InvalidNotation),
        }),
{
    if spot.unicode_len() < 1 {
        return Err(ChessErrors::InvalidNotation);
    }
    let c = spot.get_char(0);
    if 'a' <= c && c <= 'h' {
        Ok((c as u32 - 'a' as u32) as usize)
    } else {
        Err(ChessErrors::InvalidNotation)
    }
}

pub fn convert_row(spot: &str) -> (r: Result<usize, ChessErrors>)
    ensures
        r == (match spot_row(spot@) {
            Some(rw) => Ok(rw as usize),
            None => Err(ChessErrors::InvalidNotation),
        }),
{
    if spot.unicode_len() < 2 {
        return Err(ChessErrors::InvalidNotation);
    }
    let c = spot.get_char(1);
    if '1' <= c && c <= '8' {
        Ok(('8' as u32 - c as u32) as usize)
    } else {
        Err(ChessErrors::InvalidNotation)
    }
}

pub fn check_for_valid_notation(spot: &str) -> (r: Result<bool, ChessErrors>)
    ensures
        r == (if is_spot(spot@) {
            Ok::<bool, ChessErrors>(true)
        } else {
            Err(ChessErrors::InvalidNotation)
        }),
{
    let col = convert_col(spot);
    let row = convert_row(spot);
    if col.is_ok() && row.is_ok() {
        Ok(true)
    } else {
        Err(ChessErrors::InvalidNotation)
    }
}

pub fn notation_to_index(spot: &str) -> (r: Result<usize, ChessErrors>)
    ensures
        r == (if is_spot(spot@) {
            Ok::<usize, ChessErrors>(spot_index(spot@) as usize)
        } else {
            Err(ChessErrors::InvalidNotation)
        }),
        r is Ok ==> r->Ok_0 < 64,
{
    let col = convert_col(spot)?;
    let row = convert_row(spot)?;
    Ok(row * 8 + col)
}

pub fn convert_move_notation_to_indexes(from_spot: &str, to_spot: &str) -> (r: Result<
    (usize, usize),
    ChessErrors,
>)
    ensures
        r == (if is_spot(from_spot@) && is_spot(to_spot@) {
            Ok::<(usize, usize), ChessErrors>(
                (spot_index(from_spot@) as usize, spot_index(to_spot@) as usize),
            )
        } else {
            Err(ChessErrors::InvalidNotation)
        }),
{
    let from_index = notation_to_index(from_spot)?;
    let to_index = notation_to_index(to_spot)?;
    Ok((from_index, to_index))
}

/// A square as coordinates: `x` is the column (file a = 0), `y` the row
/// (rank 8 = 0).
#[derive(Clone, Copy, Debug, PartialEq, Eq, Structural)]
pub struct Point {
    pub x: u8,
    pub y: u8,
}

pub fn convert_move_notation_to_xy(from_spot: &str, to_spot: &str) -> (r: Result<
    (Point, Point),
    ChessErrors,
>)
    ensures
        r == (if is_spot(from_spot@) && is_spot(to_spot@) {
            Ok::<(Point, Point), ChessErrors>(
                (
                    Point { x: spot_col(from_spot@)->0 as u8, y: spot_row(from_spot@)->0 as u8 },
                    Point { x: spot_col(to_spot@)->0 as u8, y: spot_row(to_spot@)->0 as u8 },
                ),
            )
        } else {
            Err(ChessErrors::InvalidNotation)
        }),
{
    let from_col = convert_col(from_spot)?;
    let from_row = convert_row(from_spot)?;
    let to_col = convert_col(to_spot)?;
    let to_row = convert_row(to_spot)?;
    Ok((Point { x: from_col as u8, y: from_row as u8 }, Point { x: to_col as u8, y: to_row as u8 }))
}

/// The file letter one column to the left, if there is one.
pub fn minus_one_col(the_col: char) -> (r: Option<char>)
    ensures
        r == (if 'b' <= the_col && the_col <= 'h' {
            Some((the_col as int - 1) as char)
        } else {
            None
        }),
{
    match the_col {
        'b' => Some('a'),
        'c' => Some('b'),
        'd' => Some('c'),
        'e' => Some('d'),
        'f' => Some('e'),
        'g' => Some('f'),
        'h' => Some('g'),
        _ => None,
    }
}

/// The file letter one column to the right, if there is one.
pub fn plus_one_col(the_col: char) -> (r: Option<char>)
    ensures
        r == (if 'a' <= the_col && the_col <= 'g' {
            Some((the_col as int + 1) as char)
        } else {
            None
        }),
{
    match the_col {
        'a' => Some('b'),
        'b' => Some('c'),
        'c' => Some('d'),
        'd' => Some('e'),
        'e' => Some('f'),
        'f' => Some('g'),
        'g' => Some('h'),
        _ => None,
    }
}

/// The eight compass steps on the board. `Up` goes toward rank 8 (row - 1),
/// `Left` toward file a (column - 1).
#[derive(Clone, Copy, Debug, PartialEq, Eq, Structural)]
pub enum Direction {
    Up,
    Down,
    Left,
    Right,
    UpLeft,
    UpRight,
    DownLeft,
    DownRight,
}

pub open spec fn dir_dx(d: Direction) -> int {
    match d {
        Direction::Left | Direction::UpLeft | Direction::DownLeft => -1,
        Direction::Right | Direction::UpRight | Direction::DownRight => 1,
        _ => 0,
    }
}

pub open spec fn dir_dy(d: Direction) -> int {
    match d {
        Direction::Up | Direction::UpLeft | Direction::UpRight => -1,
        Direction::Down | Direction::DownLeft | Direction::DownRight => 1,
        _ => 0,
    }
}

/// `k` times the unit step `s` (-1, 0 or 1).
pub open spec fn scale(k: int, s: int) -> int {
    if s > 0 {
        k
    } else if s < 0 {
        -k
    } else {
        0
    }
}

/// The square `k` steps from `i` in direction `d`, if it is on the board.
pub open spec fn steps_from(i: int, d: Direction, k: int) -> Option<usize> {
    let c = sq_col(i) + scale(k, dir_dx(d));
    let r = sq_row(i) + scale(k, dir_dy(d));
    if 0 <= c < 8 && 0 <= r < 8 {
        Some((r * 8 + c) as usize)
    } else {
        None
    }
}

pub open spec fn neighbor_spec(i: int, d: Direction) -> Option<usize> {
    steps_from(i, d, 1)
}

/// The adjacent square of `index` in direction `dir`; `None` at the edge.
pub fn neighbor(index: usize, dir: Direction) -> (r: Option<usize>)
    requires
        index < 64,
    ensures
        r == neighbor_spec(index as int, dir),
        r is Some ==> r->0 < 64,
{
    let c = index % 8;
    let rw = index / 8;
    let (cl, cr, ru, rd) = (c > 0, c < 7, rw > 0, rw < 7);
    match dir {
        Direction::Up => if ru { Some(index - 8) } else { None },
        Direction::Down => if rd { Some(index + 8) } else { None },
        Direction::Left => if cl { Some(index - 1) } else { None },
        Direction::Right => if cr { Some(index + 1) } else { None },
        Direction::UpLeft => if ru && cl { Some(index - 9) } else { None },
        Direction::UpRight => if ru && cr { Some(index - 7) } else { None },
        Direction::DownLeft => if rd && cl { Some(index + 7) } else { None },
        Direction::DownRight => if rd && cr { Some(index + 9) } else { None },
    }
}

/// The ASCII bytes of the name of index `i`.
pub open spec fn spot_bytes(i: int) -> Seq<u8> {
    seq![(97 + sq_col(i)) as u8, (56 - sq_row(i)) as u8]
}

/// The neighbors of a square, each as the two ASCII bytes of its name.
pub struct Bounds {
    pub top: Option<[u8; 2]>,
    pub bottom: Option<[u8; 2]>,
    pub left: Option<[u8; 2]>,
    pub right: Option<[u8; 2]>,
    pub top_left_diag: Option<[u8; 2]>,
    pub top_right_diag: Option<[u8; 2]>,
    pub bottom_left_diag: Option<[u8; 2]>,
    pub bottom_right_diag: Option<[u8; 2]>,
}

/// `field` names the neighbor of `i` in direction `d`, or is `None` when
/// there is none.
pub open spec fn names_neighbor(field: Option<[u8; 2]>, i: int, d: Direction) -> bool {
    match neighbor_spec(i, d) {
        Some(n) => field is Some && field->0@ == spot_bytes(n as int),
        None => field is None,
    }
}

pub open spec fn bounds_of(b: Bounds, i: int) -> bool {
    &&& names_neighbor(b.top, i, Direction::Up)
    &&& names_neighbor(b.bottom, i, Direction::Down)
    &&& names_neighbor(b.left, i, Direction::Left)
    &&& names_neighbor(b.right, i, Direction::Right)
    &&& names_neighbor(b.top_left_diag, i, Direction::UpLeft)
    &&& names_neighbor(b.top_right_diag, i, Direction::UpRight)
    &&& names_neighbor(b.bottom_left_diag, i, Direction::DownLeft)
    &&& names_neighbor(b.bottom_right_diag, i, Direction::DownRight)
}

fn neighbor_bytes(index: usize, dir: Direction) -> (r: Option<[u8; 2]>)
    requires
        index < 64,
    ensures
        names_neighbor(r, index as int, dir),
{
    match neighbor(index, dir) {
        Some(n) => {
            let a: [u8; 2] = [97u8 + (n % 8) as u8, 56u8 - (n / 8) as u8];
            assert(a@ =~= spot_bytes(n as int));
            Some(a)
        },
        None => None,
    }
}

/// The neighbors of `spot`; fails unless `spot` names a square.
pub fn get_bounds(spot: &str) -> (r: Result<Bounds, ChessErrors>)
    ensures
        is_spot(spot@) <==> r is Ok,
        !is_spot(spot@) ==> r == Err::<Bounds, ChessErrors>(ChessErrors::InvalidNotation),
        r is Ok ==> bounds_of(r->Ok_0, spot_index(spot@)),
{
    let i = notation_to_index(spot)?;
    Ok(
        Bounds {
            top: neighbor_bytes(i, Direction::Up),
            bottom: neighbor_bytes(i, Direction::Down),
            left: neighbor_bytes(i, Direction::Left),
            right: neighbor_bytes(i, Direction::Right),
            top_left_diag: neighbor_bytes(i, Direction::UpLeft),
            top_right_diag: neighbor_bytes(i, Direction::UpRight),
            bottom_left_diag: neighbor_bytes(i, Direction::DownLeft),
            bottom_right_diag: neighbor_bytes(i, Direction::DownRight),
        },
    )
}

/// Column and row of the index `r * 8 + c`.
pub proof fn lemma_index_parts(r: int, c: int)
    requires
        0 <= r < 8,
        0 <= c < 8,
    ensures
        sq_col(r * 8 + c) == c,
        sq_row(r * 8 + c) == r,
{
    lemma_fundamental_div_mod_converse(r * 8 + c, 8, r, c);
}

/// One more step from the square `k` steps away is the square `k + 1` steps
/// away.
pub proof fn lemma_step_again(i: int, d: Direction, k: int)
    requires
        0 <= i < 64,
        0 <= k,
        steps_from(i, d, k) is Some,
    ensures
        neighbor_spec(steps_from(i, d, k)->0 as int, d) == steps_from(i, d, k + 1),
{
    let c = sq_col(i) + scale(k, dir_dx(d));
    let r = sq_row(i) + scale(k, dir_dy(d));
    lemma_index_parts(r, c);
}

/// Each spot of the board has exactly one index, and each index one spot.
pub proof fn lemma_spot_round_trip(s: Seq<char>, i: int)
    ensures
        is_spot(s) && s.len() == 2 ==> 0 <= spot_index(s) < 64 && spot_text(spot_index(s)) == s,
        0 <= i < 64 ==> is_spot(spot_text(i)) && spot_index(spot_text(i)) == i,
{
    if is_spot(s) && s.len() == 2 {
        assert(spot_text(spot_index(s)) =~= s);
    }
}

} // verus!
