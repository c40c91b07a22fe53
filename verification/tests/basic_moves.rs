use chess_engine::{Game, MoveMadeEvent, MoveType, PieceColour, Square};

fn sq(rank: i8, file: i8) -> Square {
    Square { rank, file }
}

fn id_at(game: &Game, rank: i8, file: i8) -> u64 {
    for (id, _, _, pos) in game.board_state() {
        if pos.rank == rank && pos.file == file {
            return id;
        }
    }
    panic!("no piece at the given square");
}

fn play(game: &mut Game, from: (i8, i8), to: (i8, i8)) -> MoveMadeEvent {
    let id = id_at(game, from.0, from.1);
    game.request_move(id, sq(to.0, to.1)).expect("move should be legal")
}

#[test]
fn opening_pawn_moves_and_a_capture() {
    // Scenario: 1. e4 d5 2. exd5.
    let mut game = Game::new();
    let white_e_pawn = id_at(&game, 1, 4);
    let moves = game.legal_destinations(white_e_pawn).unwrap();
    assert!(moves.contains(&sq(2, 4)));
    assert!(moves.contains(&sq(3, 4)));
    assert_eq!(moves.len(), 2);

    let ev = game.request_move(white_e_pawn, sq(3, 4)).unwrap();
    assert!(matches!(ev.move_type, MoveType::Move));

    let black_d_pawn = id_at(&game, 6, 3);
    let moves = game.legal_destinations(black_d_pawn).unwrap();
    assert!(moves.contains(&sq(4, 3)));
    game.request_move(black_d_pawn, sq(4, 3)).unwrap();

    let ev = game.request_move(white_e_pawn, sq(4, 3)).unwrap();
    assert!(matches!(ev.move_type, MoveType::Take(id) if id == black_d_pawn));
    // The captured pawn has left the board.
    assert_eq!(game.board_state().len(), 31);
    assert!(game.board_state().iter().all(|(id, _, _, _)| *id != black_d_pawn));
}

#[test]
fn legal_moves_never_target_own_pieces_or_own_square() {
    let game = Game::new();
    let state = game.board_state();
    for (id, colour, _, pos) in state.iter() {
        let moves = game.legal_destinations(*id).unwrap();
        assert!(!moves.contains(pos));
        for (_, other_colour, _, other_pos) in state.iter() {
            if other_colour == colour {
                assert!(!moves.contains(other_pos));
            }
        }
    }
}

#[test]
fn legal_moves_reflect_new_position() {
    // After 1. e4 the pawn's regenerated moves start from e4, not from e2.
    let mut game = Game::new();
    let pawn = id_at(&game, 1, 4);
    play(&mut game, (1, 4), (3, 4));
    play(&mut game, (6, 0), (5, 0));
    let moves = game.legal_destinations(pawn).unwrap();
    assert!(moves.contains(&sq(4, 4)));
    // No stale double-step from the old origin, and not its own square.
    assert!(!moves.contains(&sq(5, 4)));
    assert!(!moves.contains(&sq(3, 4)));
    assert!(!moves.contains(&sq(2, 4)));
}

#[test]
fn knights_jump_and_sliders_are_blocked_at_the_start() {
    let game = Game::new();
    let knight = id_at(&game, 0, 1);
    let moves = game.legal_destinations(knight).unwrap();
    assert!(moves.contains(&sq(2, 0)));
    assert!(moves.contains(&sq(2, 2)));
    assert_eq!(moves.len(), 2);

    // The bishop, rook and queen are boxed in.
    for file in [0, 2, 3] {
        let piece = id_at(&game, 0, file);
        assert_eq!(game.legal_destinations(piece).unwrap().len(), 0);
    }
}

#[test]
fn a_pinned_piece_has_valid_but_no_legal_moves() {
    // A white bishop on e2 shields its king on e1 from a rook on e8: every
    // bishop move is structurally valid yet illegal, because it would
    // expose the king.
    let piece = |colour, piece_type, rank, file| chess_engine::Piece {
        colour,
        piece_type,
        pos: sq(rank, file),
        has_moved: true,
    };
    let pieces = vec![
        piece(PieceColour::White, chess_engine::PieceType::King, 0, 4),
        piece(PieceColour::White, chess_engine::PieceType::Bishop, 1, 4),
        piece(PieceColour::Black, chess_engine::PieceType::Rook, 7, 4),
        piece(PieceColour::Black, chess_engine::PieceType::King, 7, 0),
    ];
    let bishop = pieces[1];
    assert!(bishop.is_move_valid(&sq(2, 3), &pieces, &None));
    let legal = bishop.legal_moves(&pieces, None);
    assert!(!legal.contains(&sq(2, 3)));
    assert!(legal.is_empty());
    // The shielded king is not in check; without the bishop it is.
    assert!(!chess_engine::legal::is_in_check(PieceColour::White, &pieces, &None));
    let exposed = vec![pieces[0], pieces[2], pieces[3]];
    assert!(chess_engine::legal::is_in_check(PieceColour::White, &exposed, &None));
}

#[test]
fn rejected_requests_leave_the_game_unchanged() {
    let mut game = Game::new();
    let pawn = id_at(&game, 1, 4);

    assert_eq!(
        game.request_move(pawn, sq(8, 4)),
        Err(chess_engine::MoveError::InvalidDestination)
    );
    assert_eq!(
        game.request_move(999, sq(3, 4)),
        Err(chess_engine::MoveError::NoPieceSelected)
    );
    let black_pawn = id_at(&game, 6, 4);
    assert_eq!(
        game.request_move(black_pawn, sq(4, 4)),
        Err(chess_engine::MoveError::NotPlayersTurn)
    );
    assert_eq!(
        game.request_move(pawn, sq(4, 4)),
        Err(chess_engine::MoveError::IllegalMove)
    );

    assert_eq!(game.board_state().len(), 32);
    assert_eq!(game.current_turn(), PieceColour::White);
    assert_eq!(game.move_history().0.len(), 0);
}
