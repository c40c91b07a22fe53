use chess_engine::{MoveError, Square};

fn sq(rank: i8, file: i8) -> Square {
    Square { rank, file }
}

#[test]
fn valid_squares_are_inside_the_board() {
    assert!(sq(0, 0).is_valid());
    assert!(sq(7, 7).is_valid());
    assert!(sq(3, 4).is_valid());
    assert!(!sq(-1, 0).is_valid());
    assert!(!sq(0, 8).is_valid());
    assert!(!sq(8, 8).is_valid());
}

#[test]
fn try_add_stays_on_the_board_or_fails() {
    assert_eq!(sq(1, 4).try_add((2, 0)), Ok(sq(3, 4)));
    assert_eq!(sq(0, 0).try_add((7, 7)), Ok(sq(7, 7)));
    assert_eq!(sq(0, 0).try_add((-1, 0)), Err(MoveError::InvalidDestination));
    assert_eq!(sq(7, 7).try_add((1, 0)), Err(MoveError::InvalidDestination));
}

#[test]
fn adjacency_includes_diagonals() {
    assert!(sq(3, 3).is_adjacent(&sq(4, 4)));
    assert!(sq(3, 3).is_adjacent(&sq(2, 3)));
    assert!(!sq(3, 3).is_adjacent(&sq(5, 3)));
    assert!(!sq(3, 3).is_adjacent(&sq(4, 5)));
}

#[test]
fn rank_file_and_diagonal_predicates() {
    assert!(sq(2, 0).is_same_rank(&sq(2, 7)));
    assert!(!sq(2, 0).is_same_rank(&sq(3, 0)));
    assert!(sq(0, 5).is_same_file(&sq(7, 5)));
    assert!(!sq(0, 5).is_same_file(&sq(0, 4)));
    assert!(sq(0, 0).is_same_diagonal(&sq(7, 7)));
    assert!(sq(5, 2).is_same_diagonal(&sq(2, 5)));
    assert!(!sq(0, 0).is_same_diagonal(&sq(1, 2)));
}

#[test]
fn square_colours_alternate() {
    // a1 is a dark square; b1 is light.
    assert!(!sq(0, 0).is_white());
    assert!(sq(0, 1).is_white());
    assert!(sq(1, 0).is_white());
}

#[test]
fn algebraic_annotations() {
    assert_eq!(sq(0, 0).file_annotation(), "a");
    assert_eq!(sq(0, 7).file_annotation(), "h");
    assert_eq!(sq(0, 0).rank_annotation(), "1");
    assert_eq!(sq(7, 0).rank_annotation(), "8");
    assert_eq!(sq(3, 4).notation(), "e4");
    assert_eq!(sq(7, 7).notation(), "h8");
}
