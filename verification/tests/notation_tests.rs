use chess_engine::{Game, MoveMadeEvent, Square};

fn sq(rank: i8, file: i8) -> Square {
    Square { rank, file }
}

fn id_at(game: &Game, rank: i8, file: i8) -> u64 {
    for (id, _, _, pos) in game.board_state() {
        if pos.rank == rank && pos.file == file {
            return id;
        }
    }
    panic!("no piece at the given square");
}

fn play(game: &mut Game, from: (i8, i8), to: (i8, i8)) -> MoveMadeEvent {
    let id = id_at(game, from.0, from.1);
    game.request_move(id, sq(to.0, to.1)).expect("move should be legal")
}

#[test]
fn pawn_moves_and_captures_in_the_history() {
    // 1. e4 d5 2. exd5: pawns are written by square, captures by origin file.
    let mut game = Game::new();
    play(&mut game, (1, 4), (3, 4));
    assert_eq!(game.move_history().0, vec!["1. e4".to_string()]);
    play(&mut game, (6, 3), (4, 3));
    assert_eq!(game.move_history().0, vec!["1. e4 d5".to_string()]);
    play(&mut game, (3, 4), (4, 3));
    assert_eq!(
        game.move_history().0,
        vec!["1. e4 d5".to_string(), "2. exd5".to_string()]
    );
}

#[test]
fn piece_moves_carry_their_letter() {
    let mut game = Game::new();
    play(&mut game, (0, 6), (2, 5));
    assert_eq!(game.move_history().0, vec!["1. Nf3".to_string()]);
    play(&mut game, (7, 1), (5, 2));
    assert_eq!(game.move_history().0, vec!["1. Nf3 Nc6".to_string()]);
}

#[test]
fn two_knights_on_one_destination_are_disambiguated() {
    // Knights reach c3 and f4; both can go to d5, so the move names its
    // origin file.
    let mut game = Game::new();
    play(&mut game, (0, 1), (2, 2));
    play(&mut game, (6, 0), (5, 0));
    play(&mut game, (0, 6), (2, 7));
    play(&mut game, (6, 1), (5, 1));
    play(&mut game, (2, 7), (3, 5));
    play(&mut game, (5, 0), (4, 0));

    // Both knights may move to d5.
    let c3_knight = id_at(&game, 2, 2);
    let f4_knight = id_at(&game, 3, 5);
    assert!(game.legal_destinations(c3_knight).unwrap().contains(&sq(4, 3)));
    assert!(game.legal_destinations(f4_knight).unwrap().contains(&sq(4, 3)));

    game.request_move(c3_knight, sq(4, 3)).unwrap();
    let entry = game.move_history().0.last().unwrap().clone();
    assert_eq!(entry, "4. Ncd5");
}

#[test]
fn an_unambiguous_knight_move_has_no_disambiguator() {
    let mut game = Game::new();
    play(&mut game, (0, 1), (2, 2));
    let entry = game.move_history().0.last().unwrap().clone();
    assert_eq!(entry, "1. Nc3");
}
