use chess_engine::{DrawReason, Game, GameStatus, MoveMadeEvent, PieceColour, Square};

fn sq(rank: i8, file: i8) -> Square {
    Square { rank, file }
}

fn id_at(game: &Game, rank: i8, file: i8) -> u64 {
    for (id, _, _, pos) in game.board_state() {
        if pos.rank == rank && pos.file == file {
            return id;
        }
    }
    panic!("no piece at the given square");
}

fn play(game: &mut Game, from: (i8, i8), to: (i8, i8)) -> MoveMadeEvent {
    let id = id_at(game, from.0, from.1);
    game.request_move(id, sq(to.0, to.1)).expect("move should be legal")
}

#[test]
fn the_game_starts_white_to_move() {
    let game = Game::new();
    assert_eq!(game.current_status(), GameStatus::NotStarted);
    assert_eq!(game.current_turn(), PieceColour::White);
    assert_eq!(game.board_state().len(), 32);
}

#[test]
fn ordinary_moves_keep_the_game_going_and_alternate_turns() {
    let mut game = Game::new();
    play(&mut game, (1, 4), (3, 4));
    assert_eq!(game.current_status(), GameStatus::OnGoing);
    assert_eq!(game.current_turn(), PieceColour::Black);
    play(&mut game, (6, 4), (4, 4));
    assert_eq!(game.current_status(), GameStatus::OnGoing);
    assert_eq!(game.current_turn(), PieceColour::White);
}

#[test]
fn a_check_is_reported_and_annotated() {
    // 1. e4 d5 2. Bb5 gives check.
    let mut game = Game::new();
    play(&mut game, (1, 4), (3, 4));
    play(&mut game, (6, 3), (4, 3));
    play(&mut game, (0, 5), (4, 1));
    assert_eq!(game.current_status(), GameStatus::Check);
    assert_eq!(game.current_turn(), PieceColour::Black);
    let entry = game.move_history().0.last().unwrap().clone();
    assert_eq!(entry, "2. Bb5!");
}

#[test]
fn fools_mate_is_checkmate_and_annotated() {
    // 1. f3 e5 2. g4 Qh4#.
    let mut game = Game::new();
    play(&mut game, (1, 5), (2, 5));
    play(&mut game, (6, 4), (4, 4));
    play(&mut game, (1, 6), (3, 6));
    play(&mut game, (7, 3), (3, 7));
    assert_eq!(game.current_status(), GameStatus::Checkmate);
    // The turn does not pass once the game is over.
    assert_eq!(game.current_turn(), PieceColour::Black);
    let entry = game.move_history().0.last().unwrap().clone();
    assert_eq!(entry, "2. g4 Qh4#");
    assert!(entry.ends_with("#"));
}

#[test]
fn the_fastest_stalemate_is_a_draw() {
    // 1. e3 a5 2. Qh5 Ra6 3. Qxa5 h5 4. Qxc7 Rah6 5. h4 f6 6. Qxd7+ Kf7
    // 7. Qxb7 Qd3 8. Qxb8 Qh7 9. Qxc8 Kg6 10. Qe6: Black has no legal move
    // and is not in check.
    let mut game = Game::new();
    play(&mut game, (1, 4), (2, 4));
    play(&mut game, (6, 0), (4, 0));
    play(&mut game, (0, 3), (4, 7));
    play(&mut game, (7, 0), (5, 0));
    play(&mut game, (4, 7), (4, 0));
    play(&mut game, (6, 7), (4, 7));
    play(&mut game, (4, 0), (6, 2));
    play(&mut game, (5, 0), (5, 7));
    play(&mut game, (1, 7), (3, 7));
    play(&mut game, (6, 5), (5, 5));
    play(&mut game, (6, 2), (6, 3));
    assert_eq!(game.current_status(), GameStatus::Check);
    play(&mut game, (7, 4), (6, 5));
    play(&mut game, (6, 3), (6, 1));
    play(&mut game, (7, 3), (2, 3));
    play(&mut game, (6, 1), (7, 1));
    play(&mut game, (2, 3), (6, 7));
    play(&mut game, (7, 1), (7, 2));
    play(&mut game, (6, 5), (5, 6));
    play(&mut game, (7, 2), (5, 4));
    assert_eq!(game.current_status(), GameStatus::Draw(DrawReason::Stalemate));
}

#[test]
fn fifty_move_counter_resets_on_pawn_moves_and_captures() {
    let mut game = Game::new();
    play(&mut game, (0, 1), (2, 2));
    assert_eq!(game.fifty_counter, 1);
    play(&mut game, (7, 1), (5, 2));
    assert_eq!(game.fifty_counter, 2);
    // A pawn move resets the counter.
    play(&mut game, (1, 4), (3, 4));
    assert_eq!(game.fifty_counter, 0);
    play(&mut game, (7, 6), (5, 5));
    assert_eq!(game.fifty_counter, 1);
    play(&mut game, (3, 4), (4, 4));
    assert_eq!(game.fifty_counter, 0);
    // A capture resets it too.
    play(&mut game, (5, 2), (4, 4));
    assert_eq!(game.fifty_counter, 0);
    play(&mut game, (0, 6), (2, 5));
    assert_eq!(game.fifty_counter, 1);
}

#[test]
fn reaching_fifty_half_moves_forces_the_draw() {
    let mut game = Game::new();
    // Forty-nine quiet half-moves have gone by.
    game.fifty_counter = 49;
    play(&mut game, (0, 1), (2, 2));
    assert_eq!(game.fifty_counter, 50);
    assert_eq!(game.current_status(), GameStatus::Draw(DrawReason::FiftyMoveRule));
    // The turn stays with the side that moved; the game is over.
    assert_eq!(game.current_turn(), PieceColour::White);
}
