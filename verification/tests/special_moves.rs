use chess_engine::{Game, MoveError, MoveMadeEvent, MoveType, PieceType, Square};

fn sq(rank: i8, file: i8) -> Square {
    Square { rank, file }
}

fn id_at(game: &Game, rank: i8, file: i8) -> u64 {
    for (id, _, _, pos) in game.board_state() {
        if pos.rank == rank && pos.file == file {
            return id;
        }
    }
    panic!("no piece at the given square");
}

fn piece_at(game: &Game, rank: i8, file: i8) -> PieceType {
    for (_, _, piece_type, pos) in game.board_state() {
        if pos.rank == rank && pos.file == file {
            return piece_type;
        }
    }
    panic!("no piece at the given square");
}

fn play(game: &mut Game, from: (i8, i8), to: (i8, i8)) -> MoveMadeEvent {
    let id = id_at(game, from.0, from.1);
    game.request_move(id, sq(to.0, to.1)).expect("move should be legal")
}

#[test]
fn en_passant_captures_the_double_stepped_pawn() {
    // 1. e4 a6 2. e5 d5 3. exd6, taking the d-pawn en passant.
    let mut game = Game::new();
    let white_pawn = id_at(&game, 1, 4);
    play(&mut game, (1, 4), (3, 4));
    play(&mut game, (6, 0), (5, 0));
    play(&mut game, (3, 4), (4, 4));
    let black_d_pawn = id_at(&game, 6, 3);
    game.request_move(black_d_pawn, sq(4, 3)).unwrap();

    // The destination square d6 is empty; the victim sits beside the mover.
    let moves = game.legal_destinations(white_pawn).unwrap();
    assert!(moves.contains(&sq(5, 3)));

    let ev = game.request_move(white_pawn, sq(5, 3)).unwrap();
    assert!(matches!(ev.move_type, MoveType::TakeEnPassant(id) if id == black_d_pawn));
    assert!(game.board_state().iter().all(|(id, _, _, _)| *id != black_d_pawn));
    // The capturing pawn stands on d6; d5 is empty.
    assert_eq!(id_at(&game, 5, 3), white_pawn);
    assert!(game.board_state().iter().all(|(_, _, _, pos)| *pos != sq(4, 3)));
}

#[test]
fn en_passant_expires_after_an_unrelated_move() {
    // As above, but Black plays another move first; the en-passant right is
    // gone afterwards.
    let mut game = Game::new();
    let white_pawn = id_at(&game, 1, 4);
    play(&mut game, (1, 4), (3, 4));
    play(&mut game, (6, 0), (5, 0));
    play(&mut game, (3, 4), (4, 4));
    play(&mut game, (6, 3), (4, 3));
    play(&mut game, (1, 0), (2, 0));
    play(&mut game, (5, 0), (4, 0));
    let moves = game.legal_destinations(white_pawn).unwrap();
    assert!(!moves.contains(&sq(5, 3)));
}

#[test]
fn kingside_castling_relocates_the_rook() {
    // 1. Nf3 a6 2. e3 b6 3. Be2 c6 4. 0-0.
    let mut game = Game::new();
    play(&mut game, (0, 6), (2, 5));
    play(&mut game, (6, 0), (5, 0));
    play(&mut game, (1, 4), (2, 4));
    play(&mut game, (6, 1), (5, 1));
    play(&mut game, (0, 5), (1, 4));
    play(&mut game, (6, 2), (5, 2));

    let king = id_at(&game, 0, 4);
    let rook = id_at(&game, 0, 7);
    let moves = game.legal_destinations(king).unwrap();
    assert!(moves.contains(&sq(0, 6)));

    let ev = game.request_move(king, sq(0, 6)).unwrap();
    assert!(matches!(ev.move_type, MoveType::Castle));
    assert_eq!(id_at(&game, 0, 6), king);
    assert_eq!(id_at(&game, 0, 5), rook);
    let entry = game.move_history().0.last().unwrap().clone();
    assert_eq!(entry, "4. 0-0");
}

#[test]
fn queenside_castling_relocates_the_rook() {
    // 1. d4 a6 2. Bf4 b6 3. Qd3 c6 4. Nc3 d6 5. 0-0-0.
    let mut game = Game::new();
    play(&mut game, (1, 3), (3, 3));
    play(&mut game, (6, 0), (5, 0));
    play(&mut game, (0, 2), (3, 5));
    play(&mut game, (6, 1), (5, 1));
    play(&mut game, (0, 3), (2, 3));
    play(&mut game, (6, 2), (5, 2));
    play(&mut game, (0, 1), (2, 2));
    play(&mut game, (6, 3), (5, 3));

    let king = id_at(&game, 0, 4);
    let rook = id_at(&game, 0, 0);
    let ev = game.request_move(king, sq(0, 2)).unwrap();
    assert!(matches!(ev.move_type, MoveType::Castle));
    assert_eq!(id_at(&game, 0, 2), king);
    assert_eq!(id_at(&game, 0, 3), rook);
    let entry = game.move_history().0.last().unwrap().clone();
    assert_eq!(entry, "5. 0-0-0");
}

#[test]
fn castling_is_refused_once_the_king_has_moved() {
    let mut game = Game::new();
    play(&mut game, (0, 6), (2, 5));
    play(&mut game, (6, 0), (5, 0));
    play(&mut game, (1, 4), (2, 4));
    play(&mut game, (6, 1), (5, 1));
    play(&mut game, (0, 5), (1, 4));
    play(&mut game, (6, 2), (5, 2));
    // The king steps aside and back; its castling right is spent.
    play(&mut game, (0, 4), (0, 5));
    play(&mut game, (6, 3), (5, 3));
    play(&mut game, (0, 5), (0, 4));
    play(&mut game, (6, 4), (5, 4));

    let king = id_at(&game, 0, 4);
    let moves = game.legal_destinations(king).unwrap();
    assert!(!moves.contains(&sq(0, 6)));
}

#[test]
fn promotion_blocks_play_until_resolved() {
    // The a-pawn marches to b7 and captures the rook on a8.
    let mut game = Game::new();
    let pawn = id_at(&game, 1, 0);
    play(&mut game, (1, 0), (3, 0));
    play(&mut game, (6, 7), (5, 7));
    play(&mut game, (3, 0), (4, 0));
    play(&mut game, (5, 7), (4, 7));
    play(&mut game, (4, 0), (5, 0));
    play(&mut game, (4, 7), (3, 7));
    let ev = play(&mut game, (5, 0), (6, 1));
    assert!(matches!(ev.move_type, MoveType::Take(_)));
    play(&mut game, (3, 7), (2, 7));
    let ev = play(&mut game, (6, 1), (7, 0));
    assert!(matches!(ev.move_type, MoveType::Take(_)));

    // The pawn reached the back rank: promotion pending, moves refused.
    assert_eq!(game.pending_promotion(), Some(pawn));
    let black_pawn = id_at(&game, 6, 4);
    assert_eq!(
        game.request_move(black_pawn, sq(4, 4)),
        Err(MoveError::PromotionPending)
    );

    // The choice must be a promotable type, for the pending piece.
    assert_eq!(
        game.resolve_promotion(pawn, PieceType::King),
        Err(MoveError::IllegalMove)
    );
    assert_eq!(
        game.resolve_promotion(black_pawn, PieceType::Queen),
        Err(MoveError::NoPieceSelected)
    );

    game.resolve_promotion(pawn, PieceType::Queen).unwrap();
    assert_eq!(game.pending_promotion(), None);
    assert_eq!(piece_at(&game, 7, 0), PieceType::Queen);
    let entry = game.move_history().0.last().unwrap().clone();
    assert!(entry.ends_with("=Q"));

    // Play resumes.
    game.request_move(black_pawn, sq(4, 4)).unwrap();
}
